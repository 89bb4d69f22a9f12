//! Resource dependency graphs: parsing `terraform graph` DOT output, a fallback
//! built from generated HCL, and Mermaid export.
use vstd::prelude::*;

use crate::migration::types::strs_view;
use crate::text::{
    chars_of, contains, contains_str, eq_str, find, has_char, lemma_find_from_bounds, lines, lines_v,
    push_char, push_str, push_u64, push_vec, replace_char, replace_char_v, seq_eq, slice_of,
    starts_with, starts_with_exec, string_of, trim, trim_start, trim_start_v, trim_v, views, dec,
};
use crate::text_sort::{
    dedup_adj, dedup_char_vecs, ins_by, isort_by, isort_by_same_elements, isort_by_sorts, lemma_ins_by_split, sorted_by, lex_lt, lex_lt_exec,
    sort_char_vecs, vec_key, isort_by_keeps_distinct,
};

verus! {

/// Dependency graph node: a resource and the resources it depends on.
#[derive(Debug, Clone)]
pub struct GraphNode {
    /// Display name, e.g. `upcloud_server.web`
    pub name: String,
    /// Names of resources this node directly depends on.
    pub deps: Vec<String>,
}

/// A node as characters: `(name, deps)`.
pub open spec fn node_view(n: GraphNode) -> (Seq<char>, Seq<Seq<char>>) {
    (n.name@, strs_view(n.deps@))
}

pub open spec fn nodes_view(ns: Seq<GraphNode>) -> Seq<(Seq<char>, Seq<Seq<char>>)> {
    ns.map_values(|n: GraphNode| node_view(n))
}

pub open spec fn node_key() -> spec_fn(GraphNode) -> Seq<char> {
    |n: GraphNode| n.name@
}

fn sort_nodes(input: Vec<GraphNode>) -> (r: Vec<GraphNode>)
    ensures
        r@ == isort_by(input@, node_key()),
{
    let ghost orig = input@;
    let mut rest = input;
    let mut out: Vec<GraphNode> = Vec::new();
    let mut k: usize = 0;
    let n = rest.len();
    assert(orig.take(0) =~= Seq::<GraphNode>::empty());
    while k < n
        invariant
            n == orig.len(),
            k <= n,
            rest@ == orig.skip(k as int),
            out@ == isort_by(orig.take(k as int), node_key()),
        decreases n - k,
    {
        let x = rest.remove(0);
        assert(x == orig[k as int]);
        assert(rest@ =~= orig.skip(k + 1));
        let xn = chars_of(x.name.as_str());
        let mut p = out.len();
        assert(out@.take(p as int) =~= out@);
        assert(out@.skip(p as int) =~= Seq::<GraphNode>::empty());
        loop
            invariant
                p <= out@.len(),
                xn@ == x.name@,
                ins_by(out@, x, node_key()) == ins_by(out@.take(p as int), x, node_key()) + out@.skip(
                    p as int,
                ),
            ensures
                ins_by(out@, x, node_key()) == ins_by(out@.take(p as int), x, node_key()) + out@.skip(
                    p as int,
                ),
                p > 0 ==> !crate::text_sort::lex_lt(x.name@, out@[p - 1].name@),
            decreases p,
        {
            if p == 0 {
                break;
            }
            let yn = chars_of(out[p - 1].name.as_str());
            if !lex_lt_exec(&xn, &yn) {
                break;
            }
            proof {
                lemma_ins_by_split(out@, x, node_key(), p as int);
            }
            p -= 1;
        }
        let ghost before = out@;
        proof {
            if p > 0 {
                assert(out@.take(p as int).last() == out@[p - 1]);
            }
            assert(ins_by(out@.take(p as int), x, node_key()) == out@.take(p as int).push(x));
            assert(orig.take(k + 1).drop_last() =~= orig.take(k as int));
        }
        out.insert(p, x);
        assert(out@ =~= before.take(p as int).push(x) + before.skip(p as int));
        k += 1;
    }
    assert(orig.take(n as int) =~= orig);
    out
}

// ── DOT parser ────────────────────────────────────────────────────────────────

/// The quoted text at the start of `s` (after the opening quote): `\"` stands for a
/// quote, any other escape is kept as written. Gives `(text, rest after the closing quote)`.
pub open spec fn read_quoted_body(s: Seq<char>, acc: Seq<char>) -> Option<(Seq<char>, Seq<char>)>
    decreases s.len(),
{
    if s.len() == 0 {
        None
    } else if s[0] == '"' {
        Some((acc, s.skip(1)))
    } else if s[0] == '\\' {
        if s.len() < 2 {
            None
        } else if s[1] == '"' {
            read_quoted_body(s.skip(2), acc.push('"'))
        } else {
            read_quoted_body(s.skip(2), acc.push('\\').push(s[1]))
        }
    } else {
        read_quoted_body(s.skip(1), acc.push(s[0]))
    }
}

/// A leading double-quoted string of `s` and the text after it.
pub open spec fn spec_read_quoted(s: Seq<char>) -> Option<(Seq<char>, Seq<char>)> {
    if s.len() > 0 && s[0] == '"' {
        read_quoted_body(s.skip(1), seq![])
    } else {
        None
    }
}

fn read_quoted(s: &Vec<char>) -> (r: Option<(Vec<char>, Vec<char>)>)
    ensures
        r matches Some((a, b)) ==> spec_read_quoted(s@) == Some((a@, b@)),
        r is None ==> spec_read_quoted(s@) is None,
{
    let n = s.len();
    if n == 0 || s[0] != '"' {
        return None;
    }
    let mut result: Vec<char> = Vec::new();
    let mut i: usize = 1;
    assert(s@.skip(1) =~= s@.skip(1));
    while i < n
        invariant
            n == s@.len(),
            1 <= i <= n,
            spec_read_quoted(s@) == read_quoted_body(s@.skip(i as int), result@),
        decreases n - i,
    {
        let c = s[i];
        if c == '"' {
            let rest = slice_of(s, i + 1, n);
            assert(rest@ =~= s@.skip(i as int).skip(1));
            return Some((result, rest));
        } else if c == '\\' {
            if i + 1 >= n {
                return None;
            }
            let d = s[i + 1];
            if d == '"' {
                result.push('"');
            } else {
                result.push('\\');
                result.push(d);
            }
            assert(s@.skip(i as int).skip(2) =~= s@.skip(i + 2));
            i += 2;
        } else {
            result.push(c);
            assert(s@.skip(i as int).skip(1) =~= s@.skip(i + 1));
            i += 1;
        }
    }
    assert(s@.skip(i as int) =~= Seq::<char>::empty());
    None
}

/// The value of `label = "..."` in the attribute list of a DOT node line.
pub open spec fn spec_extract_label_attr(s: Seq<char>) -> Option<Seq<char>> {
    match find(s, "label"@) {
        None => None,
        Some(pos) => {
            let after = trim_start(s.skip(pos + 5));
            if after.len() > 0 && after[0] == '=' {
                match spec_read_quoted(trim_start(after.skip(1))) {
                    Some((label, _)) => Some(label),
                    None => None,
                }
            } else {
                None
            }
        },
    }
}

fn extract_label_attr(s: &Vec<char>) -> (r: Option<Vec<char>>)
    ensures
        r matches Some(l) ==> spec_extract_label_attr(s@) == Some(l@),
        r is None ==> spec_extract_label_attr(s@) is None,
{
    let pos = match crate::text::find_str(s, "label") {
        Some(p) => p,
        None => return None,
    };
    proof {
        reveal_strlit("label");
        lemma_find_from_bounds(s@, "label"@, 0);
    }
    let n = s.len();
    assert(pos + 5 <= n);
    let tail = slice_of(s, pos + 5, n);
    assert(tail@ =~= s@.skip(pos + 5));
    let after = trim_start_v(&tail);
    if after.len() == 0 || after[0] != '=' {
        return None;
    }
    let a1 = slice_of(&after, 1, after.len());
    assert(a1@ =~= after@.skip(1));
    let a2 = trim_start_v(&a1);
    match read_quoted(&a2) {
        Some((label, _)) => Some(label),
        None => None,
    }
}

/// Labels by node id (first-declaration order, later declarations overwrite) and
/// the `(source id, target id)` edges, in order.
pub struct DotScan {
    pub labels: Seq<(Seq<char>, Seq<char>)>,
    pub edges: Seq<(Seq<char>, Seq<char>)>,
}

/// Index of key `k` in an association list.
pub open spec fn assoc_index(m: Seq<(Seq<char>, Seq<char>)>, k: Seq<char>, n: int) -> Option<int>
    decreases n,
{
    if n <= 0 {
        None
    } else if m[n - 1].0 == k {
        Some(n - 1)
    } else {
        assoc_index(m, k, n - 1)
    }
}

/// `HashMap::insert` on an association list.
pub open spec fn assoc_insert(m: Seq<(Seq<char>, Seq<char>)>, k: Seq<char>, v: Seq<char>) -> Seq<
    (Seq<char>, Seq<char>),
> {
    match assoc_index(m, k, m.len() as int) {
        Some(i) => m.update(i, (k, v)),
        None => m.push((k, v)),
    }
}

/// `HashMap::get` on an association list.
pub open spec fn assoc_get(m: Seq<(Seq<char>, Seq<char>)>, k: Seq<char>) -> Option<Seq<char>> {
    match assoc_index(m, k, m.len() as int) {
        Some(i) => Some(m[i].1),
        None => None,
    }
}

/// One trimmed DOT line: a node declaration `"ID" [label = "L", ...]` or an edge
/// `"SRC" -> "DST"`.
pub open spec fn dot_step(st: DotScan, line: Seq<char>) -> DotScan {
    let t = trim(line);
    if t.len() > 0 && t[0] == '"' && contains(t, "[label"@) {
        match spec_read_quoted(t) {
            Some((id, rest)) => match spec_extract_label_attr(rest) {
                Some(label) => DotScan { labels: assoc_insert(st.labels, id, label), ..st },
                None => st,
            },
            None => st,
        }
    } else if t.len() > 0 && t[0] == '"' && contains(t, "\" -> \""@) {
        match spec_read_quoted(t) {
            Some((src, rest)) => {
                let r = trim(rest);
                if starts_with(r, "->"@) {
                    let after = trim(r.skip(2));
                    if after.len() > 0 && after[0] == '"' {
                        match spec_read_quoted(after) {
                            Some((dst, _)) => DotScan { edges: st.edges.push((src, dst)), ..st },
                            None => st,
                        }
                    } else {
                        st
                    }
                } else {
                    st
                }
            },
            None => st,
        }
    } else {
        st
    }
}

pub open spec fn dot_fold(ls: Seq<Seq<char>>, st: DotScan) -> DotScan
    decreases ls.len(),
{
    if ls.len() == 0 {
        st
    } else {
        dot_fold(ls.drop_first(), dot_step(st, ls[0]))
    }
}

/// A real resource label: not a provider, meta node or the root, and dotted.
pub open spec fn is_interesting(label: Seq<char>) -> bool {
    !starts_with(label, "provider["@) && !starts_with(label, "meta."@) && label != "root"@
        && label.contains('.')
}

/// Labels of the interesting targets of the edges from `id`, in edge order.
pub open spec fn dep_labels(
    labels: Seq<(Seq<char>, Seq<char>)>,
    edges: Seq<(Seq<char>, Seq<char>)>,
    id: Seq<char>,
) -> Seq<Seq<char>>
    decreases edges.len(),
{
    if edges.len() == 0 {
        seq![]
    } else {
        let rest = dep_labels(labels, edges.drop_last(), id);
        let (src, dst) = edges.last();
        if src == id {
            match assoc_get(labels, dst) {
                Some(l) => if is_interesting(l) {
                    rest.push(l)
                } else {
                    rest
                },
                None => rest,
            }
        } else {
            rest
        }
    }
}

/// The unsorted nodes: one per interesting label among `labels[..n]`, with sorted,
/// de-duplicated dependencies.
pub open spec fn dot_nodes(
    labels: Seq<(Seq<char>, Seq<char>)>,
    edges: Seq<(Seq<char>, Seq<char>)>,
    n: int,
) -> Seq<(Seq<char>, Seq<Seq<char>>)>
    decreases n,
{
    if n <= 0 {
        seq![]
    } else {
        let rest = dot_nodes(labels, edges, n - 1);
        let (id, label) = labels[n - 1];
        if is_interesting(label) {
            rest.push(
                (label, dedup_adj(isort_by(dep_labels(labels, edges, id), |s: Seq<char>| s))),
            )
        } else {
            rest
        }
    }
}

pub open spec fn pair_key() -> spec_fn((Seq<char>, Seq<Seq<char>>)) -> Seq<char> {
    |p: (Seq<char>, Seq<Seq<char>>)| p.0
}

/// The nodes of a `terraform graph` DOT text, sorted by name.
pub open spec fn spec_parse_dot(dot: Seq<char>) -> Seq<(Seq<char>, Seq<Seq<char>>)> {
    let st = dot_fold(lines(dot), DotScan { labels: seq![], edges: seq![] });
    isort_by(dot_nodes(st.labels, st.edges, st.labels.len() as int), pair_key())
}


pub open spec fn pairs_view(v: Seq<(Vec<char>, Vec<char>)>) -> Seq<(Seq<char>, Seq<char>)> {
    v.map_values(|p: (Vec<char>, Vec<char>)| (p.0@, p.1@))
}

fn assoc_index_exec(m: &Vec<(Vec<char>, Vec<char>)>, k: &Vec<char>) -> (r: Option<usize>)
    ensures
        r matches Some(i) ==> assoc_index(pairs_view(m@), k@, m@.len() as int) == Some(i as int)
            && i < m@.len(),
        r is None ==> assoc_index(pairs_view(m@), k@, m@.len() as int) is None,
{
    let mut i = m.len();
    while i > 0
        invariant
            i <= m@.len(),
            assoc_index(pairs_view(m@), k@, m@.len() as int) == assoc_index(
                pairs_view(m@),
                k@,
                i as int,
            ),
        decreases i,
    {
        if seq_eq(&m[i - 1].0, k) {
            return Some(i - 1);
        }
        i -= 1;
    }
    None
}

fn copy_vec(v: &Vec<char>) -> (r: Vec<char>)
    ensures
        r@ == v@,
{
    let r = slice_of(v, 0, v.len());
    assert(r@ =~= v@);
    r
}

fn is_interesting_exec(label: &Vec<char>) -> (r: bool)
    ensures
        r == is_interesting(label@),
{
    !starts_with_exec(label, "provider[") && !starts_with_exec(label, "meta.") && !eq_str(
        label,
        "root",
    ) && has_char(label, '.')
}

fn dot_step_exec(
    labels: &mut Vec<(Vec<char>, Vec<char>)>,
    edges: &mut Vec<(Vec<char>, Vec<char>)>,
    line: &Vec<char>,
)
    ensures
        dot_step(
            DotScan { labels: pairs_view(old(labels)@), edges: pairs_view(old(edges)@) },
            line@,
        ) == (DotScan { labels: pairs_view(final(labels)@), edges: pairs_view(final(edges)@) }),
{
    let t = trim_v(line);
    let q = t.len() > 0 && t[0] == '"';
    if q && contains_str(&t, "[label") {
        if let Some((id, rest)) = read_quoted(&t) {
            if let Some(label) = extract_label_attr(&rest) {
                let ghost m = pairs_view(labels@);
                match assoc_index_exec(labels, &id) {
                    Some(i) => {
                        labels.set(i, (id, label));
                        assert(pairs_view(labels@) =~= m.update(i as int, (id@, label@)));
                    },
                    None => {
                        labels.push((id, label));
                        assert(pairs_view(labels@) =~= m.push((id@, label@)));
                    },
                }
            }
        }
        return;
    }
    if q && contains_str(&t, "\" -> \"") {
        if let Some((src, rest)) = read_quoted(&t) {
            let r = trim_v(&rest);
            if starts_with_exec(&r, "->") {
                proof {
                    reveal_strlit("->");
                }
                let r2 = slice_of(&r, 2, r.len());
                assert(r2@ =~= r@.skip(2));
                let after = trim_v(&r2);
                if after.len() > 0 && after[0] == '"' {
                    if let Some((dst, _)) = read_quoted(&after) {
                        let ghost e = pairs_view(edges@);
                        edges.push((src, dst));
                        assert(pairs_view(edges@) =~= e.push((src@, dst@)));
                    }
                }
            }
        }
    }
}

fn dep_labels_exec(
    labels: &Vec<(Vec<char>, Vec<char>)>,
    edges: &Vec<(Vec<char>, Vec<char>)>,
    id: &Vec<char>,
) -> (r: Vec<Vec<char>>)
    ensures
        views(r@) == dep_labels(pairs_view(labels@), pairs_view(edges@), id@),
{
    let mut out: Vec<Vec<char>> = Vec::new();
    let mut i: usize = 0;
    while i < edges.len()
        invariant
            i <= edges@.len(),
            views(out@) == dep_labels(pairs_view(labels@), pairs_view(edges@).take(i as int), id@),
        decreases edges@.len() - i,
    {
        assert(pairs_view(edges@).take(i + 1).drop_last() =~= pairs_view(edges@).take(i as int));
        assert(pairs_view(edges@).take(i + 1).last() == (edges@[i as int].0@, edges@[i as int].1@));
        if seq_eq(&edges[i].0, id) {
            match assoc_index_exec(labels, &edges[i].1) {
                Some(j) => {
                    if is_interesting_exec(&labels[j].1) {
                        let ghost prev = views(out@);
                        out.push(copy_vec(&labels[j].1));
                        assert(views(out@) =~= prev.push(labels@[j as int].1@));
                    }
                },
                None => {},
            }
        }
        i += 1;
    }
    assert(pairs_view(edges@).take(edges@.len() as int) =~= pairs_view(edges@));
    out
}

fn strings_of(v: &Vec<Vec<char>>) -> (r: Vec<String>)
    ensures
        strs_view(r@) == views(v@),
{
    let mut r: Vec<String> = Vec::new();
    let mut i: usize = 0;
    while i < v.len()
        invariant
            i <= v@.len(),
            r@.len() == i,
            strs_view(r@) == views(v@).take(i as int),
        decreases v@.len() - i,
    {
        let s = string_of(&v[i]);
        let ghost prev = r@;
        r.push(s);
        assert forall|j: int| 0 <= j < i + 1 implies strs_view(r@)[j] == views(v@).take(i + 1)[j] by {
            if j < i {
                assert(strs_view(prev)[j] == views(v@).take(i as int)[j]);
                assert(r@[j] == prev[j]);
            }
        }
        assert(strs_view(r@) =~= views(v@).take(i + 1));
        i += 1;
    }
    assert(views(v@).take(v@.len() as int) =~= views(v@));
    r
}

/// Parse the DOT output of `terraform graph` into a sorted list of `GraphNode`s.
/// Provider meta-nodes and internal Terraform scaffolding are filtered out.
pub fn parse_dot(dot: &str) -> (r: Vec<GraphNode>)
    ensures
        nodes_view(r@) == spec_parse_dot(dot@),
{
    let v = chars_of(dot);
    let ls = lines_v(&v);
    let mut labels: Vec<(Vec<char>, Vec<char>)> = Vec::new();
    let mut edges: Vec<(Vec<char>, Vec<char>)> = Vec::new();
    let ghost init = DotScan { labels: seq![], edges: seq![] };
    assert(pairs_view(labels@) =~= seq![]);
    assert(pairs_view(edges@) =~= seq![]);
    let mut i: usize = 0;
    assert(views(ls@).skip(0) =~= views(ls@));
    while i < ls.len()
        invariant
            i <= ls@.len(),
            views(ls@) == lines(dot@),
            dot_fold(views(ls@), init) == dot_fold(
                views(ls@).skip(i as int),
                DotScan { labels: pairs_view(labels@), edges: pairs_view(edges@) },
            ),
        decreases ls@.len() - i,
    {
        assert(views(ls@).skip(i as int)[0] == ls@[i as int]@);
        assert(views(ls@).skip(i as int).drop_first() =~= views(ls@).skip(i + 1));
        dot_step_exec(&mut labels, &mut edges, &ls[i]);
        i += 1;
    }
    assert(views(ls@).skip(i as int) =~= Seq::<Seq<char>>::empty());
    let ghost lv = pairs_view(labels@);
    let ghost ev = pairs_view(edges@);
    let mut nodes: Vec<GraphNode> = Vec::new();
    let mut k: usize = 0;
    while k < labels.len()
        invariant
            k <= labels@.len(),
            lv == pairs_view(labels@),
            ev == pairs_view(edges@),
            nodes_view(nodes@) == dot_nodes(lv, ev, k as int),
        decreases labels@.len() - k,
    {
        if is_interesting_exec(&labels[k].1) {
            let deps = dep_labels_exec(&labels, &edges, &labels[k].0);
            let sorted = sort_char_vecs(deps);
            proof {
                crate::text_sort::lemma_isort_by_map(
                    deps@,
                    vec_key(),
                    |s: Seq<char>| s,
                    |x: Vec<char>| x@,
                );
            }
            let dd = dedup_char_vecs(&sorted);
            let node = GraphNode { name: string_of(&labels[k].1), deps: strings_of(&dd) };
            let ghost prev = nodes_view(nodes@);
            nodes.push(node);
            assert(nodes_view(nodes@) =~= prev.push(node_view(node)));
        }
        k += 1;
    }
    let r = sort_nodes(nodes);
    proof {
        crate::text_sort::lemma_isort_by_map(nodes@, node_key(), pair_key(), |n: GraphNode| node_view(n));
    }
    r
}


// ── Fallback: build graph from resolved HCL ───────────────────────────────────

/// `TYPE.NAME` of a resolved-HCL entry.
pub open spec fn full_name(e: ((Seq<char>, Seq<char>), Seq<char>)) -> Seq<char> {
    e.0.0 + seq!['.'] + e.0.1
}

pub open spec fn entries_view(v: Seq<((String, String), String)>) -> Seq<
    ((Seq<char>, Seq<char>), Seq<char>),
> {
    v.map_values(|e: ((String, String), String)| ((e.0.0@, e.0.1@), e.1@))
}

/// The full names among `es[..n]` other than `me` that occur in `hcl`, in order.
pub open spec fn hcl_deps(es: Seq<((Seq<char>, Seq<char>), Seq<char>)>, me: Seq<char>, hcl: Seq<char>, n: int) -> Seq<Seq<char>>
    decreases n,
{
    if n <= 0 {
        seq![]
    } else {
        let rest = hcl_deps(es, me, hcl, n - 1);
        let c = full_name(es[n - 1]);
        if c != me && contains(hcl, c) {
            rest.push(c)
        } else {
            rest
        }
    }
}

/// One node per entry among `es[..n]`, with its sorted dependencies.
pub open spec fn hcl_nodes(es: Seq<((Seq<char>, Seq<char>), Seq<char>)>, n: int) -> Seq<
    (Seq<char>, Seq<Seq<char>>),
>
    decreases n,
{
    if n <= 0 {
        seq![]
    } else {
        let e = es[n - 1];
        hcl_nodes(es, n - 1).push(
            (full_name(e), isort_by(hcl_deps(es, full_name(e), e.1, es.len() as int), |s: Seq<char>| s)),
        )
    }
}

/// The dependency graph of resolved HCL: a node per `(type, name) → hcl` entry,
/// depending on every other entry whose `type.name` its HCL mentions; sorted by name.
pub open spec fn spec_build_graph_from_hcl(es: Seq<((Seq<char>, Seq<char>), Seq<char>)>) -> Seq<
    (Seq<char>, Seq<Seq<char>>),
> {
    isort_by(hcl_nodes(es, es.len() as int), pair_key())
}

fn full_name_exec(e: &((String, String), String)) -> (r: Vec<char>)
    ensures
        r@ == full_name(((e.0.0@, e.0.1@), e.1@)),
{
    let mut s = String::new();
    push_str(&mut s, e.0.0.as_str());
    push_char(&mut s, '.');
    push_str(&mut s, e.0.1.as_str());
    assert(s@ =~= e.0.0@ + seq!['.'] + e.0.1@);
    chars_of(s.as_str())
}

/// Build the dependency graph from resolved HCL, one node per `((type, name), hcl)` entry.
pub fn build_graph_from_hcl(resolved_hcl_map: &[((String, String), String)]) -> (r: Vec<GraphNode>)
    ensures
        nodes_view(r@) == spec_build_graph_from_hcl(entries_view(resolved_hcl_map@)),
{
    let ghost es = entries_view(resolved_hcl_map@);
    let mut nodes: Vec<GraphNode> = Vec::new();
    let mut k: usize = 0;
    while k < resolved_hcl_map.len()
        invariant
            k <= resolved_hcl_map@.len(),
            es == entries_view(resolved_hcl_map@),
            nodes_view(nodes@) == hcl_nodes(es, k as int),
        decreases resolved_hcl_map@.len() - k,
    {
        let me = full_name_exec(&resolved_hcl_map[k]);
        let hcl = chars_of(resolved_hcl_map[k].1.as_str());
        let mut deps: Vec<Vec<char>> = Vec::new();
        let mut j: usize = 0;
        while j < resolved_hcl_map.len()
            invariant
                j <= resolved_hcl_map@.len(),
                k < resolved_hcl_map@.len(),
                es == entries_view(resolved_hcl_map@),
                me@ == full_name(es[k as int]),
                hcl@ == es[k as int].1,
                views(deps@) == hcl_deps(es, me@, hcl@, j as int),
            decreases resolved_hcl_map@.len() - j,
        {
            let c = full_name_exec(&resolved_hcl_map[j]);
            assert(c@ == full_name(es[j as int]));
            if !seq_eq(&c, &me) && crate::text::contains_vec(&hcl, &c) {
                let ghost prev = views(deps@);
                deps.push(c);
                assert(views(deps@) =~= prev.push(full_name(es[j as int])));
            }
            j += 1;
        }
        let sorted = sort_char_vecs(deps);
        proof {
            crate::text_sort::lemma_isort_by_map(deps@, vec_key(), |s: Seq<char>| s, |x: Vec<char>| x@);
        }
        let node = GraphNode { name: string_of(&me), deps: strings_of(&sorted) };
        let ghost prev = nodes_view(nodes@);
        nodes.push(node);
        assert(nodes_view(nodes@) =~= prev.push(node_view(node)));
        k += 1;
    }
    let r = sort_nodes(nodes);
    proof {
        crate::text_sort::lemma_isort_by_map(nodes@, node_key(), pair_key(), |n: GraphNode| node_view(n));
    }
    r
}

// ── Mermaid export ────────────────────────────────────────────────────────────

/// The last index among `ns[..n]` whose name is `name`.
pub open spec fn last_named(ns: Seq<(Seq<char>, Seq<Seq<char>>)>, name: Seq<char>, n: int) -> Option<int>
    decreases n,
{
    if n <= 0 {
        None
    } else if ns[n - 1].0 == name {
        Some(n - 1)
    } else {
        last_named(ns, name, n - 1)
    }
}

/// The declaration lines `\n    nI["NAME"]` for the first `n` nodes (quotes become `'`).
pub open spec fn mermaid_decls(ns: Seq<(Seq<char>, Seq<Seq<char>>)>, n: int) -> Seq<char>
    decreases n,
{
    if n <= 0 {
        seq![]
    } else {
        mermaid_decls(ns, n - 1) + "\n    n"@ + dec((n - 1) as nat) + "[\""@ + replace_char(
            ns[n - 1].0,
            '"',
            "'"@,
        ) + "\"]"@
    }
}

/// Edge lines `\n    nS --> nD` from node id `src` to the first `m` dependencies.
pub open spec fn mermaid_dep_edges(ns: Seq<(Seq<char>, Seq<Seq<char>>)>, src: int, deps: Seq<Seq<char>>, m: int) -> Seq<char>
    decreases m,
{
    if m <= 0 {
        seq![]
    } else {
        let rest = mermaid_dep_edges(ns, src, deps, m - 1);
        match last_named(ns, deps[m - 1], ns.len() as int) {
            Some(d) => rest + "\n    n"@ + dec(src as nat) + " --> n"@ + dec(d as nat),
            None => rest,
        }
    }
}

/// The edge lines of the first `n` nodes.
pub open spec fn mermaid_edges(ns: Seq<(Seq<char>, Seq<Seq<char>>)>, n: int) -> Seq<char>
    decreases n,
{
    if n <= 0 {
        seq![]
    } else {
        let rest = mermaid_edges(ns, n - 1);
        match last_named(ns, ns[n - 1].0, ns.len() as int) {
            Some(s) => rest + mermaid_dep_edges(ns, s, ns[n - 1].1, ns[n - 1].1.len() as int),
            None => rest,
        }
    }
}

/// A Mermaid `graph TD` block: node `i` is `n{i}`; a name used by several nodes
/// refers to the last of them.
pub open spec fn spec_nodes_to_mermaid(ns: Seq<(Seq<char>, Seq<Seq<char>>)>) -> Seq<char> {
    "graph TD"@ + mermaid_decls(ns, ns.len() as int) + mermaid_edges(ns, ns.len() as int)
}

fn last_named_exec(nodes: &[GraphNode], name: &Vec<char>) -> (r: Option<usize>)
    ensures
        r matches Some(i) ==> i < nodes@.len() && last_named(nodes_view(nodes@), name@, nodes@.len() as int) == Some(i as int),
        r is None ==> last_named(nodes_view(nodes@), name@, nodes@.len() as int) is None,
{
    let mut i = nodes.len();
    while i > 0
        invariant
            i <= nodes@.len(),
            last_named(nodes_view(nodes@), name@, nodes@.len() as int) == last_named(
                nodes_view(nodes@),
                name@,
                i as int,
            ),
        decreases i,
    {
        let nm = chars_of(nodes[i - 1].name.as_str());
        if seq_eq(&nm, name) {
            return Some(i - 1);
        }
        i -= 1;
    }
    None
}

/// Convert a list of graph nodes into a Mermaid `graph TD` block.
pub fn nodes_to_mermaid(nodes: &[GraphNode]) -> (r: String)
    ensures
        r@ == spec_nodes_to_mermaid(nodes_view(nodes@)),
{
    let ghost ns = nodes_view(nodes@);
    let mut out = String::new();
    push_str(&mut out, "graph TD");
    let mut i: usize = 0;
    while i < nodes.len()
        invariant
            i <= nodes@.len(),
            ns == nodes_view(nodes@),
            out@ == "graph TD"@ + mermaid_decls(ns, i as int),
        decreases nodes@.len() - i,
    {
        let name = chars_of(nodes[i].name.as_str());
        let label = replace_char_v(&name, '"', "'");
        push_str(&mut out, "\n    n");
        push_u64(&mut out, i as u64);
        push_str(&mut out, "[\"");
        push_vec(&mut out, &label);
        push_str(&mut out, "\"]");
        i += 1;
    }
    let mut k: usize = 0;
    while k < nodes.len()
        invariant
            k <= nodes@.len(),
            ns == nodes_view(nodes@),
            out@ == "graph TD"@ + mermaid_decls(ns, ns.len() as int) + mermaid_edges(ns, k as int),
        decreases nodes@.len() - k,
    {
        let name = chars_of(nodes[k].name.as_str());
        match last_named_exec(nodes, &name) {
            Some(s) => {
                let deps = &nodes[k].deps;
                let ghost base = out@;
                let mut m: usize = 0;
                while m < deps.len()
                    invariant
                        m <= deps@.len(),
                        s < nodes@.len(),
                        ns == nodes_view(nodes@),
                        strs_view(deps@) == ns[k as int].1,
                        out@ == base + mermaid_dep_edges(ns, s as int, strs_view(deps@), m as int),
                    decreases deps@.len() - m,
                {
                    let d = chars_of(deps[m].as_str());
                    assert(strs_view(deps@)[m as int] == d@);
                    match last_named_exec(nodes, &d) {
                        Some(di) => {
                            push_str(&mut out, "\n    n");
                            push_u64(&mut out, s as u64);
                            push_str(&mut out, " --> n");
                            push_u64(&mut out, di as u64);
                        },
                        None => {},
                    }
                    m += 1;
                }
            },
            None => {},
        }
        k += 1;
    }
    out
}

/// The nodes of a parsed graph come sorted by name.
pub proof fn parse_dot_sorted_by_name(dot: Seq<char>)
    ensures
        forall|i: int, j: int| 0 <= i < j < spec_parse_dot(dot).len() ==> !lex_lt(#[trigger] spec_parse_dot(dot)[j].0, #[trigger] spec_parse_dot(dot)[i].0),
{
    let st = dot_fold(lines(dot), DotScan { labels: seq![], edges: seq![] });
    let ns = dot_nodes(st.labels, st.edges, st.labels.len() as int);
    isort_by_sorts(ns, pair_key());
    let r = spec_parse_dot(dot);
    assert forall|i: int, j: int| 0 <= i < j < r.len() implies !lex_lt(#[trigger] r[j].0, #[trigger] r[i].0) by {
        assert(pair_key()(r[j]) == r[j].0);
        assert(pair_key()(r[i]) == r[i].0);
    }
}

/// `n` is the node of some entry.
pub open spec fn is_entry_node(es: Seq<((Seq<char>, Seq<char>), Seq<char>)>, n: (Seq<char>, Seq<Seq<char>>)) -> bool {
    exists|i: int| 0 <= i < es.len() && #[trigger] node_of(es, i) == n
}

/// The node of entry `i`: its full name and the sorted names of the other entries its
/// HCL mentions.
pub open spec fn node_of(es: Seq<((Seq<char>, Seq<char>), Seq<char>)>, i: int) -> (Seq<char>, Seq<Seq<char>>) {
    (full_name(es[i]), isort_by(hcl_deps(es, full_name(es[i]), es[i].1, es.len() as int), |s: Seq<char>| s))
}

proof fn lemma_hcl_nodes(es: Seq<((Seq<char>, Seq<char>), Seq<char>)>, n: int)
    requires
        0 <= n <= es.len(),
    ensures
        hcl_nodes(es, n).len() == n,
        forall|i: int| 0 <= i < n ==> hcl_nodes(es, n)[i] == node_of(es, i),
    decreases n,
{
    if n > 0 {
        lemma_hcl_nodes(es, n - 1);
    }
}

proof fn lemma_hcl_deps(es: Seq<((Seq<char>, Seq<char>), Seq<char>)>, me: Seq<char>, h: Seq<char>, n: int)
    requires
        0 <= n <= es.len(),
    ensures
        forall|d: Seq<char>| hcl_deps(es, me, h, n).contains(d) <==> exists|j: int| 0 <= j < n && #[trigger] full_name(es[j]) == d && d != me && contains(h, d),
    decreases n,
{
    if n > 0 {
        lemma_hcl_deps(es, me, h, n - 1);
        let prev = hcl_deps(es, me, h, n - 1);
        let cur = hcl_deps(es, me, h, n);
        let c = full_name(es[n - 1]);
        assert forall|d: Seq<char>| cur.contains(d) <==> exists|j: int| 0 <= j < n && #[trigger] full_name(es[j]) == d && d != me && contains(h, d) by {
            if cur.contains(d) {
                let k = choose|k: int| 0 <= k < cur.len() && cur[k] == d;
                if k < prev.len() {
                    assert(prev[k] == d);
                    assert(prev.contains(d));
                    let j = choose|j: int| 0 <= j < n - 1 && #[trigger] full_name(es[j]) == d && d != me && contains(h, d);
                    assert(full_name(es[j]) == d);
                } else {
                    assert(full_name(es[n - 1]) == d);
                }
            }
            if exists|j: int| 0 <= j < n && #[trigger] full_name(es[j]) == d && d != me && contains(h, d) {
                let j = choose|j: int| 0 <= j < n && #[trigger] full_name(es[j]) == d && d != me && contains(h, d);
                if j < n - 1 {
                    assert(prev.contains(d));
                    let k = choose|k: int| 0 <= k < prev.len() && prev[k] == d;
                    assert(cur[k] == d);
                } else {
                    assert(cur[prev.len() as int] == d);
                }
            }
        }
    }
}

/// The graph built from resolved HCL has one node per entry, sorted by name: every node
/// is the node of an entry and every entry has its node, whose dependencies are sorted and
/// are exactly the full names of the entries its HCL mentions, other than itself.
pub proof fn graph_from_hcl_nodes(es: Seq<((Seq<char>, Seq<char>), Seq<char>)>)
    ensures
        spec_build_graph_from_hcl(es).len() == es.len(),
        forall|i: int, j: int| 0 <= i < j < spec_build_graph_from_hcl(es).len() ==> !lex_lt(#[trigger] spec_build_graph_from_hcl(es)[j].0, #[trigger] spec_build_graph_from_hcl(es)[i].0),
        forall|i: int| 0 <= i < es.len() ==> spec_build_graph_from_hcl(es).contains(#[trigger] node_of(es, i)),
        forall|k: int| 0 <= k < spec_build_graph_from_hcl(es).len() ==> is_entry_node(es, #[trigger] spec_build_graph_from_hcl(es)[k]),
        forall|i: int, d: Seq<char>| 0 <= i < es.len() ==> (#[trigger] node_of(es, i).1.contains(d) <==> exists|j: int| 0 <= j < es.len() && #[trigger] full_name(es[j]) == d && d != full_name(es[i]) && contains(es[i].1, d)),
        forall|i: int| 0 <= i < es.len() ==> sorted_by(#[trigger] node_of(es, i).1, |s: Seq<char>| s),
{
    let ns = hcl_nodes(es, es.len() as int);
    let g = spec_build_graph_from_hcl(es);
    lemma_hcl_nodes(es, es.len() as int);
    isort_by_same_elements(ns, pair_key());
    isort_by_sorts(ns, pair_key());
    assert forall|i: int, j: int| 0 <= i < j < g.len() implies !lex_lt(#[trigger] g[j].0, #[trigger] g[i].0) by {
        assert(pair_key()(g[j]) == g[j].0);
        assert(pair_key()(g[i]) == g[i].0);
    }
    assert forall|i: int| 0 <= i < es.len() implies g.contains(#[trigger] node_of(es, i)) by {
        assert(ns[i] == node_of(es, i));
        assert(ns.contains(node_of(es, i)));
    }
    assert forall|k: int| 0 <= k < g.len() implies is_entry_node(es, #[trigger] g[k]) by {
        assert(g.contains(g[k]));
        assert(ns.contains(g[k]));
        let i = choose|i: int| 0 <= i < ns.len() && ns[i] == g[k];
        assert(node_of(es, i) == g[k]);
    }
    assert forall|i: int, d: Seq<char>| 0 <= i < es.len() implies (#[trigger] node_of(es, i).1.contains(d) <==> exists|j: int| 0 <= j < es.len() && #[trigger] full_name(es[j]) == d && d != full_name(es[i]) && contains(es[i].1, d)) by {
        let deps = hcl_deps(es, full_name(es[i]), es[i].1, es.len() as int);
        lemma_hcl_deps(es, full_name(es[i]), es[i].1, es.len() as int);
        isort_by_same_elements(deps, |s: Seq<char>| s);
        assert(node_of(es, i).1 == isort_by(deps, |s: Seq<char>| s));
        assert(node_of(es, i).1.contains(d) == deps.contains(d));
    }
    assert forall|i: int| 0 <= i < es.len() implies sorted_by(#[trigger] node_of(es, i).1, |s: Seq<char>| s) by {
        isort_by_sorts(hcl_deps(es, full_name(es[i]), es[i].1, es.len() as int), |s: Seq<char>| s);
    }
}

/// The entries' full names (`type.name`) are pairwise distinct.
pub open spec fn distinct_full_names(es: Seq<((Seq<char>, Seq<char>), Seq<char>)>) -> bool {
    forall|i: int, j: int| 0 <= i < j < es.len() ==> full_name(#[trigger] es[i]) != full_name(#[trigger] es[j])
}

proof fn lemma_hcl_deps_distinct(es: Seq<((Seq<char>, Seq<char>), Seq<char>)>, me: Seq<char>, h: Seq<char>, n: int)
    requires
        0 <= n <= es.len(),
        distinct_full_names(es),
    ensures
        hcl_deps(es, me, h, n).no_duplicates(),
    decreases n,
{
    if n > 0 {
        lemma_hcl_deps_distinct(es, me, h, n - 1);
        lemma_hcl_deps(es, me, h, n - 1);
        let prev = hcl_deps(es, me, h, n - 1);
        let c = full_name(es[n - 1]);
        if c != me && contains(h, c) {
            let cur = prev.push(c);
            assert(!prev.contains(c)) by {
                if prev.contains(c) {
                    let j = choose|j: int| 0 <= j < n - 1 && #[trigger] full_name(es[j]) == c && c != me && contains(h, c);
                    assert(full_name(es[j]) != full_name(es[n - 1]));
                }
            }
            assert forall|a: int, b: int| 0 <= a < cur.len() && 0 <= b < cur.len() && a != b implies cur[a] != cur[b] by {
                if a < prev.len() && b < prev.len() {
                } else if a < prev.len() {
                    assert(prev.contains(cur[a]));
                } else {
                    assert(prev.contains(cur[b]));
                }
            }
        }
    }
}

/// Where the entries' full names are distinct, the graph has exactly one node per name
/// and no node lists a dependency twice.
pub proof fn graph_from_hcl_names_distinct(es: Seq<((Seq<char>, Seq<char>), Seq<char>)>)
    requires
        distinct_full_names(es),
    ensures
        forall|i: int, j: int| 0 <= i < j < spec_build_graph_from_hcl(es).len() ==> #[trigger] spec_build_graph_from_hcl(es)[i].0 != #[trigger] spec_build_graph_from_hcl(es)[j].0,
        forall|k: int| 0 <= k < spec_build_graph_from_hcl(es).len() ==> (#[trigger] spec_build_graph_from_hcl(es)[k]).1.no_duplicates(),
{
    let ns = hcl_nodes(es, es.len() as int);
    let g = spec_build_graph_from_hcl(es);
    lemma_hcl_nodes(es, es.len() as int);
    isort_by_same_elements(ns, pair_key());
    assert(ns.no_duplicates()) by {
        assert forall|a: int, b: int| 0 <= a < ns.len() && 0 <= b < ns.len() && a != b implies ns[a] != ns[b] by {
            assert(ns[a] == node_of(es, a) && ns[b] == node_of(es, b));
            if a < b {
                assert(full_name(es[a]) != full_name(es[b]));
            } else {
                assert(full_name(es[b]) != full_name(es[a]));
            }
        }
    }
    isort_by_keeps_distinct(ns, pair_key());
    assert forall|i: int, j: int| 0 <= i < j < g.len() implies #[trigger] g[i].0 != #[trigger] g[j].0 by {
        assert(g[i] == g[i] && g.contains(g[i]));
        assert(g.contains(g[j]));
        assert(ns.contains(g[i]));
        assert(ns.contains(g[j]));
        let a = choose|a: int| 0 <= a < ns.len() && ns[a] == g[i];
        let b = choose|b: int| 0 <= b < ns.len() && ns[b] == g[j];
        assert(ns[a] == node_of(es, a) && ns[b] == node_of(es, b));
        if g[i].0 == g[j].0 {
            if a < b {
                assert(full_name(es[a]) != full_name(es[b]));
            } else if b < a {
                assert(full_name(es[b]) != full_name(es[a]));
            }
            assert(g[i] == g[j]);
        }
    }
    assert forall|k: int| 0 <= k < g.len() implies (#[trigger] g[k]).1.no_duplicates() by {
        assert(g.contains(g[k]));
        assert(ns.contains(g[k]));
        let a = choose|a: int| 0 <= a < ns.len() && ns[a] == g[k];
        assert(ns[a] == node_of(es, a));
        lemma_hcl_deps_distinct(es, full_name(es[a]), es[a].1, es.len() as int);
        isort_by_keeps_distinct(hcl_deps(es, full_name(es[a]), es[a].1, es.len() as int), |s: Seq<char>| s);
    }
}

} // verus!

