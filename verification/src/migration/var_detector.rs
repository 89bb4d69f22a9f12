//! Provider-agnostic variable detection framework.
//! Delegates to provider-specific [`VarDetector`] implementations.
use vstd::prelude::*;

use crate::migration::types::strs_view;
use crate::text::{
    chars_of, contains, count_char, count_char_v, ends_with, find, find_exec, ident_end, ident_len,
    lemma_find_from_bounds, lemma_ident_len_bound, lines, matches_at, lines_v, push_str, push_vec,
    replace_first, replace_first_v, seq_eq, slice_of, starts_with, starts_with_exec, string_of,
    trim, trim_char_v, opt_vec_view, trim_end_char, trim_start, trim_start_v, trim_v, views, has_char,
};

verus! {

/// What a variable appears to hold.
#[derive(Debug, Clone, Copy, PartialEq, Eq, Structural)]
pub enum VarKind {
    InstanceType,
    Region,
}

impl VarKind {
    pub open spec fn spec_label(self) -> Seq<char> {
        match self {
            VarKind::InstanceType => "instance type → UpCloud plan"@,
            VarKind::Region => "region → UpCloud zone"@,
        }
    }

    /// Short description of the conversion this kind stands for.
    pub fn label(&self) -> (r: &'static str)
        ensures
            r@ == self.spec_label(),
    {
        match self {
            VarKind::InstanceType => "instance type → UpCloud plan",
            VarKind::Region => "region → UpCloud zone",
        }
    }
}

/// A candidate conversion of a variable's default value.
#[derive(Debug, Clone)]
pub struct VarConversion {
    pub kind: VarKind,
    /// Confidence score 0–10.
    pub confidence: u8,
    /// Converted default value (e.g. "1xCPU-1GB" or "fi-hel1"). None if no default to convert.
    pub converted_value: Option<String>,
    /// Original default value before conversion.
    pub original_default: Option<String>,
    /// Human-readable list of signals that contributed to the confidence.
    pub signals: Vec<String>,
}

/// The mathematical content of a [`VarConversion`].
pub struct VarConversionModel {
    pub kind: VarKind,
    pub confidence: u8,
    pub converted_value: Option<Seq<char>>,
    pub original_default: Option<Seq<char>>,
    pub signals: Seq<Seq<char>>,
}

pub open spec fn opt_string_view(o: Option<String>) -> Option<Seq<char>> {
    match o {
        Some(s) => Some(s@),
        None => None,
    }
}

pub open spec fn opt_str_view(o: Option<&str>) -> Option<Seq<char>> {
    match o {
        Some(s) => Some(s@),
        None => None,
    }
}

impl View for VarConversion {
    type V = VarConversionModel;

    open spec fn view(&self) -> VarConversionModel {
        VarConversionModel {
            kind: self.kind,
            confidence: self.confidence,
            converted_value: opt_string_view(self.converted_value),
            original_default: opt_string_view(self.original_default),
            signals: strs_view(self.signals@),
        }
    }
}

/// Confidence band of a score: 8 and above HIGH, 5–7 MEDIUM, below LOW.
pub open spec fn spec_confidence_label(confidence: u8) -> Seq<char> {
    if confidence >= 8 {
        "HIGH"@
    } else if confidence >= 5 {
        "MEDIUM"@
    } else {
        "LOW"@
    }
}

/// A copy of a list of strings.
pub fn copy_strings(v: &Vec<String>) -> (r: Vec<String>)
    ensures
        strs_view(r@) == strs_view(v@),
{
    let mut r: Vec<String> = Vec::new();
    let mut i: usize = 0;
    while i < v.len()
        invariant
            i <= v@.len(),
            r@.len() == i,
            strs_view(r@) == strs_view(v@).take(i as int),
        decreases v@.len() - i,
    {
        let s = v[i].clone();
        assert(s@ == v@[i as int]@);
        let ghost prev = r@;
        r.push(s);
        assert(r@ == prev.push(s));
        assert forall|j: int| 0 <= j < i + 1 implies strs_view(r@)[j] == strs_view(v@).take(i + 1)[j] by {
            if j < i {
                assert(strs_view(prev)[j] == strs_view(v@).take(i as int)[j]);
                assert(strs_view(prev)[j] == prev[j]@);
                assert(r@[j] == prev[j]);
            } else {
                assert(r@[j] == s);
                assert(strs_view(v@)[j] == v@[j]@);
            }
            assert(strs_view(r@)[j] == r@[j]@);
        }
        assert(strs_view(r@) =~= strs_view(v@).take(i + 1));
        i += 1;
    }
    assert(strs_view(v@).take(v@.len() as int) =~= strs_view(v@));
    r
}

pub fn copy_opt_string(o: &Option<String>) -> (r: Option<String>)
    ensures
        opt_string_view(r) == opt_string_view(*o),
{
    match o {
        Some(s) => Some(s.clone()),
        None => None,
    }
}

impl VarConversion {
    /// Confidence band: `HIGH`, `MEDIUM` or `LOW`.
    pub fn confidence_label(&self) -> (r: &'static str)
        ensures
            r@ == spec_confidence_label(self.confidence),
    {
        if self.confidence >= 8 {
            "HIGH"
        } else if self.confidence >= 5 {
            "MEDIUM"
        } else {
            "LOW"
        }
    }

    /// An equal copy.
    pub fn duplicate(&self) -> (r: VarConversion)
        ensures
            r@ == self@,
    {
        VarConversion {
            kind: self.kind,
            confidence: self.confidence,
            converted_value: copy_opt_string(&self.converted_value),
            original_default: copy_opt_string(&self.original_default),
            signals: copy_strings(&self.signals),
        }
    }
}

/// The models of a list of conversions.
pub open spec fn conv_views(v: Seq<VarConversion>) -> Seq<VarConversionModel> {
    v.map_values(|c: VarConversion| c@)
}

/// Per-provider variable detection plug-in.
///
/// Implement this trait in each provider module to teach the framework how to
/// recognise and convert provider-specific variable patterns such as region codes
/// and instance/machine types.
pub trait VarDetector {
    /// The candidate conversions the detector reports for a variable.
    spec fn spec_detect(
        &self,
        name: Seq<char>,
        default_val: Option<Seq<char>>,
        description: Option<Seq<char>>,
        usage_attrs: Seq<Seq<char>>,
    ) -> Seq<VarConversionModel>;

    /// Return all candidate [`VarConversion`]s for the given variable.
    fn detect(
        &self,
        name: &str,
        default_val: Option<&str>,
        description: Option<&str>,
        usage_attrs: &[String],
    ) -> (r: Vec<VarConversion>)
        ensures
            conv_views(r@) == self.spec_detect(
                name@,
                opt_str_view(default_val),
                opt_str_view(description),
                strs_view(usage_attrs@),
            ),
    ;
}

/// The best candidate among `cs[i..]`, given the best `acc` among `cs[..i]`:
/// candidates below 3 are ignored, and among equally confident ones the last wins.
pub open spec fn best_from(cs: Seq<VarConversionModel>, i: int, acc: Option<VarConversionModel>) -> Option<
    VarConversionModel,
>
    decreases cs.len() - i,
{
    if i < 0 || i >= cs.len() {
        acc
    } else {
        let c = cs[i];
        let take = c.confidence >= 3 && match acc {
            Some(b) => c.confidence >= b.confidence,
            None => true,
        };
        best_from(cs, i + 1, if take { Some(c) } else { acc })
    }
}

/// The highest-confidence candidate reaching the threshold of 3 (the last one on ties).
pub open spec fn spec_best(cs: Seq<VarConversionModel>) -> Option<VarConversionModel> {
    best_from(cs, 0, None)
}

/// Analyse a variable using a specific provider detector and return the best
/// [`VarConversion`] if confidence reaches the minimum threshold (≥ 3).
pub fn analyze_variable_with<D: VarDetector>(
    detector: &D,
    name: &str,
    default_val: Option<&str>,
    description: Option<&str>,
    usage_attrs: &[String],
) -> (r: Option<VarConversion>)
    ensures
        r matches Some(c) ==> spec_best(
            detector.spec_detect(
                name@,
                opt_str_view(default_val),
                opt_str_view(description),
                strs_view(usage_attrs@),
            ),
        ) == Some(c@),
        r is None ==> spec_best(
            detector.spec_detect(
                name@,
                opt_str_view(default_val),
                opt_str_view(description),
                strs_view(usage_attrs@),
            ),
        ) is None,
{
    let cs = detector.detect(name, default_val, description, usage_attrs);
    let ghost m = conv_views(cs@);
    let mut best: Option<VarConversion> = None;
    let mut i: usize = 0;
    while i < cs.len()
        invariant
            i <= cs@.len(),
            m == conv_views(cs@),
            spec_best(m) == best_from(
                m,
                i as int,
                match best {
                    Some(b) => Some(b@),
                    None => None,
                },
            ),
        decreases cs@.len() - i,
    {
        let c = &cs[i];
        let take = c.confidence >= 3 && match &best {
            Some(b) => c.confidence >= b.confidence,
            None => true,
        };
        if take {
            best = Some(c.duplicate());
        }
        i += 1;
    }
    best
}

// ───────────────────────── variable blocks ─────────────────────────

pub open spec fn sat_add(a: nat, b: nat) -> nat {
    if a + b > usize::MAX {
        usize::MAX as nat
    } else {
        a + b
    }
}

pub open spec fn sat_sub(a: nat, b: nat) -> nat {
    if a >= b {
        (a - b) as nat
    } else {
        0
    }
}

/// The string value of `key = "..."` in a trimmed line starting with `key`:
/// the text after `=`, trimmed and without trailing commas, when it is quoted.
pub open spec fn quoted_attr_value(trimmed: Seq<char>, key_len: int) -> Option<Seq<char>> {
    let rest = trim_start(trimmed.skip(key_len));
    if starts_with(rest, "="@) {
        let val = trim_end_char(trim(rest.skip(1)), ',');
        if val.len() >= 2 && val[0] == '"' && val.last() == '"' {
            Some(val.subrange(1, val.len() - 1))
        } else {
            None
        }
    } else {
        None
    }
}

/// Scanner state for [`extract_variable_info`].
pub struct VarInfoState {
    pub default_val: Option<Seq<char>>,
    pub description: Option<Seq<char>>,
    pub depth: nat,
    pub in_validation: bool,
}

/// One line of a variable block: track brace depth, skip `validation` blocks,
/// and pick up quoted `default` and `description` values.
pub open spec fn var_info_step(st: VarInfoState, line: Seq<char>) -> VarInfoState {
    let trimmed = trim_start(line);
    let opens = count_char(trimmed, '{');
    let closes = count_char(trimmed, '}');
    let in_val1 = if starts_with(trimmed, "validation"@) {
        st.depth == 1
    } else {
        st.in_validation
    };
    let depth = sat_sub(sat_add(st.depth, opens), closes);
    if in_val1 && depth > 1 {
        VarInfoState { depth, in_validation: in_val1, ..st }
    } else {
        let in_val = if depth == 0 {
            false
        } else {
            in_val1
        };
        let st2 = VarInfoState { depth, in_validation: in_val, ..st };
        if starts_with(trimmed, "default"@) && !in_val {
            match quoted_attr_value(trimmed, 7) {
                Some(v) => VarInfoState { default_val: Some(v), ..st2 },
                None => st2,
            }
        } else if starts_with(trimmed, "description"@) && !in_val {
            match quoted_attr_value(trimmed, 11) {
                Some(v) => VarInfoState { description: Some(v), ..st2 },
                None => st2,
            }
        } else {
            st2
        }
    }
}

pub open spec fn var_info_fold(ls: Seq<Seq<char>>, st: VarInfoState) -> VarInfoState
    decreases ls.len(),
{
    if ls.len() == 0 {
        st
    } else {
        var_info_fold(ls.drop_first(), var_info_step(st, ls[0]))
    }
}

/// `(default, description)` of a variable block.
pub open spec fn spec_variable_info(raw_hcl: Seq<char>) -> (Option<Seq<char>>, Option<Seq<char>>) {
    let st = var_info_fold(
        lines(raw_hcl),
        VarInfoState { default_val: None, description: None, depth: 0, in_validation: false },
    );
    (st.default_val, st.description)
}

fn quoted_attr_value_exec(trimmed: &Vec<char>, key_len: usize) -> (r: Option<Vec<char>>)
    requires
        key_len <= trimmed@.len(),
    ensures
        r matches Some(v) ==> quoted_attr_value(trimmed@, key_len as int) == Some(v@),
        r is None ==> quoted_attr_value(trimmed@, key_len as int) is None,
{
    let after = slice_of(trimmed, key_len, trimmed.len());
    assert(after@ =~= trimmed@.skip(key_len as int));
    let rest = trim_start_v(&after);
    if !starts_with_exec(&rest, "=") {
        return None;
    }
    proof {
        reveal_strlit("=");
    }
    let r1 = slice_of(&rest, 1, rest.len());
    assert(r1@ =~= rest@.skip(1));
    let t = trim_v(&r1);
    let val = crate::text::trim_end_char_v(&t, ',');
    let n = val.len();
    if n >= 2 && val[0] == '"' && val[n - 1] == '"' {
        Some(slice_of(&val, 1, n - 1))
    } else {
        None
    }
}

/// Extract `(default_value, description)` from a `variable "..." { ... }` HCL block.
/// Returns unquoted string values; non-string or absent fields return `None`.
pub fn extract_variable_info(raw_hcl: &str) -> (r: (Option<String>, Option<String>))
    ensures
        (opt_string_view(r.0), opt_string_view(r.1)) == spec_variable_info(raw_hcl@),
{
    let v = chars_of(raw_hcl);
    let ls = lines_v(&v);
    let ghost init = VarInfoState {
        default_val: None,
        description: None,
        depth: 0,
        in_validation: false,
    };
    let mut default_val: Option<Vec<char>> = None;
    let mut description: Option<Vec<char>> = None;
    let mut depth: usize = 0;
    let mut in_validation = false;
    let mut i: usize = 0;
    assert(views(ls@).skip(0) =~= views(ls@));
    while i < ls.len()
        invariant
            i <= ls@.len(),
            views(ls@) == lines(raw_hcl@),
            var_info_fold(views(ls@), init) == var_info_fold(
                views(ls@).skip(i as int),
                VarInfoState {
                    default_val: opt_vec_view(default_val),
                    description: opt_vec_view(description),
                    depth: depth as nat,
                    in_validation,
                },
            ),
        decreases ls@.len() - i,
    {
        let ghost st = VarInfoState {
            default_val: opt_vec_view(default_val),
            description: opt_vec_view(description),
            depth: depth as nat,
            in_validation,
        };
        assert(views(ls@).skip(i as int).drop_first() =~= views(ls@).skip(i + 1));
        assert(views(ls@).skip(i as int)[0] == ls@[i as int]@);
        let trimmed = trim_start_v(&ls[i]);
        let opens = count_char_v(&trimmed, '{');
        let closes = count_char_v(&trimmed, '}');
        if starts_with_exec(&trimmed, "validation") {
            in_validation = depth == 1;
        }
        depth = depth.saturating_add(opens).saturating_sub(closes);
        if in_validation && depth > 1 {
            i += 1;
            continue;
        }
        if depth == 0 {
            in_validation = false;
        }
        proof {
            reveal_strlit("default");
            reveal_strlit("description");
        }
        if starts_with_exec(&trimmed, "default") && !in_validation {
            if let Some(val) = quoted_attr_value_exec(&trimmed, 7) {
                default_val = Some(val);
            }
        } else if starts_with_exec(&trimmed, "description") && !in_validation {
            if let Some(val) = quoted_attr_value_exec(&trimmed, 11) {
                description = Some(val);
            }
        }
        i += 1;
    }
    assert(views(ls@).skip(i as int) =~= Seq::<Seq<char>>::empty());
    let d = match default_val {
        Some(d) => Some(string_of(&d)),
        None => None,
    };
    let e = match description {
        Some(e) => Some(string_of(&e)),
        None => None,
    };
    (d, e)
}


// ───────────────────────── usage map ─────────────────────────

pub open spec fn var_pat() -> Seq<char> {
    seq!['v', 'a', 'r', '.']
}

/// Names of all `var.NAME` references in `search`, left to right.
pub open spec fn var_refs(search: Seq<char>) -> Seq<Seq<char>>
    decreases search.len(),
{
    match find(search, var_pat()) {
        None => seq![],
        Some(p) => {
            proof {
                lemma_find_from_bounds(search, var_pat(), 0);
            }
            let vs = p + 4;
            let name = search.skip(vs).take(ident_len(search.skip(vs)) as int);
            let here = if name.len() > 0 {
                seq![name]
            } else {
                seq![]
            };
            if vs >= search.len() {
                here
            } else {
                here + var_refs(search.skip(vs))
            }
        },
    }
}

/// The `(variable, attribute)` uses on one line `attr = ... var.NAME ...`.
pub open spec fn line_usage(line: Seq<char>) -> Seq<(Seq<char>, Seq<char>)> {
    let trimmed = trim_start(line);
    if starts_with(trimmed, seq!['#']) || trimmed.len() == 0 || trimmed == seq!['{'] || trimmed
        == seq!['}'] {
        seq![]
    } else {
        match find(trimmed, seq!['=']) {
            None => seq![],
            Some(eq) => {
                let attr = trim(trimmed.take(eq));
                if attr.contains('"') || attr.contains(' ') || attr.len() == 0 {
                    seq![]
                } else {
                    var_refs(trimmed.skip(eq + 1)).map_values(|n: Seq<char>| (n, attr))
                }
            },
        }
    }
}

/// All uses in a list of lines, in order.
pub open spec fn lines_usage(ls: Seq<Seq<char>>) -> Seq<(Seq<char>, Seq<char>)>
    decreases ls.len(),
{
    if ls.len() == 0 {
        seq![]
    } else {
        line_usage(ls[0]) + lines_usage(ls.drop_first())
    }
}

/// All uses in a list of blocks, in order.
pub open spec fn blocks_usage(bs: Seq<Seq<char>>) -> Seq<(Seq<char>, Seq<char>)>
    decreases bs.len(),
{
    if bs.len() == 0 {
        seq![]
    } else {
        lines_usage(lines(bs[0])) + blocks_usage(bs.drop_first())
    }
}

/// Index of the entry for `k` among the first `n` entries of a grouping.
pub open spec fn key_index(g: Seq<(Seq<char>, Seq<Seq<char>>)>, k: Seq<char>, n: int) -> Option<int>
    decreases n,
{
    if n <= 0 {
        None
    } else if g[n - 1].0 == k {
        Some(n - 1)
    } else {
        key_index(g, k, n - 1)
    }
}

/// Adds `v` to the list of `k`, creating it after the existing ones when `k` is new.
pub open spec fn group_add(g: Seq<(Seq<char>, Seq<Seq<char>>)>, k: Seq<char>, v: Seq<char>) -> Seq<
    (Seq<char>, Seq<Seq<char>>),
> {
    match key_index(g, k, g.len() as int) {
        Some(i) => g.update(i, (k, g[i].1.push(v))),
        None => g.push((k, seq![v])),
    }
}

/// Groups `(key, value)` pairs by key: keys in order of first use, values in order.
pub open spec fn group_pairs(g: Seq<(Seq<char>, Seq<Seq<char>>)>, ps: Seq<(Seq<char>, Seq<char>)>) -> Seq<
    (Seq<char>, Seq<Seq<char>>),
>
    decreases ps.len(),
{
    if ps.len() == 0 {
        g
    } else {
        group_pairs(group_add(g, ps[0].0, ps[0].1), ps.drop_first())
    }
}

/// Variable name → attribute names it is assigned to, in order of first use.
pub struct VarUsageMap {
    names: Vec<String>,
    attrs: Vec<Vec<String>>,
}

impl View for VarUsageMap {
    type V = Seq<(Seq<char>, Seq<Seq<char>>)>;

    closed spec fn view(&self) -> Seq<(Seq<char>, Seq<Seq<char>>)> {
        Seq::new(self.names@.len(), |i: int| (self.names@[i]@, strs_view(self.attrs@[i]@)))
    }
}

impl VarUsageMap {
    pub closed spec fn wf(&self) -> bool {
        self.names@.len() == self.attrs@.len()
    }

    /// The attributes recorded for `name`, if any.
    pub fn get(&self, name: &str) -> (r: Option<Vec<String>>)
        requires
            self.wf(),
        ensures
            r matches Some(a) ==> key_index(self@, name@, self@.len() as int) matches Some(i)
                && strs_view(a@) == self@[i].1,
            r is None ==> key_index(self@, name@, self@.len() as int) is None,
    {
        let n = chars_of(name);
        let mut i = self.names.len();
        while i > 0
            invariant
                self.wf(),
                i <= self.names@.len(),
                n@ == name@,
                key_index(self@, name@, self@.len() as int) == key_index(self@, name@, i as int),
            decreases i,
        {
            let k = chars_of(self.names[i - 1].as_str());
            if seq_eq(&k, &n) {
                return Some(copy_strings(&self.attrs[i - 1]));
            }
            i -= 1;
        }
        None
    }

    /// Number of variables recorded.
    pub fn len(&self) -> (r: usize)
        ensures
            r == self@.len(),
    {
        self.names.len()
    }

    fn add(&mut self, k: &Vec<char>, v: &Vec<char>)
        requires
            old(self).wf(),
        ensures
            final(self).wf(),
            final(self)@ == group_add(old(self)@, k@, v@),
    {
        let mut i = self.names.len();
        while i > 0
            invariant
                self.wf(),
                i <= self.names@.len(),
                self@ == old(self)@,
                key_index(self@, k@, self@.len() as int) == key_index(self@, k@, i as int),
            decreases i,
        {
            let name = chars_of(self.names[i - 1].as_str());
            if seq_eq(&name, k) {
                let mut a = copy_strings(&self.attrs[i - 1]);
                let ghost a0 = a@;
                a.push(string_of(v));
                assert(strs_view(a@) =~= strs_view(a0).push(v@));
                let ghost g = self@;
                assert(key_index(g, k@, i as int) == Some(i - 1));
                self.attrs.set(i - 1, a);
                assert(self@ =~= group_add(g, k@, v@));
                return;
            }
            i -= 1;
        }
        let ghost g = self@;
        self.names.push(string_of(k));
        let mut a: Vec<String> = Vec::new();
        a.push(string_of(v));
        assert(strs_view(a@) =~= seq![v@]);
        self.attrs.push(a);
        assert(self@ =~= group_add(g, k@, v@));
    }
}

fn var_refs_exec(s: &Vec<char>) -> (r: Vec<Vec<char>>)
    ensures
        views(r@) == var_refs(s@),
{
    let pat = chars_of("var.");
    proof {
        reveal_strlit("var.");
    }
    assert(pat@ =~= var_pat());
    let mut out: Vec<Vec<char>> = Vec::new();
    let mut cur = slice_of(s, 0, s.len());
    assert(cur@ =~= s@);
    loop
        invariant
            pat@ == var_pat(),
            var_refs(s@) == views(out@) + var_refs(cur@),
        decreases cur@.len(),
    {
        match find_exec(&cur, &pat) {
            None => {
                assert(views(out@) + seq![] =~= views(out@));
                return out;
            },
            Some(p) => {
                proof {
                    lemma_find_from_bounds(cur@, var_pat(), 0);
                }
                let n = cur.len();
                assert(p + 4 <= n);
                let vs = p + 4;
                let e = ident_end(&cur, vs);
                let ghost prev = views(out@);
                let ghost here = if e > vs {
                    seq![cur@.skip(vs as int).take(ident_len(cur@.skip(vs as int)) as int)]
                } else {
                    seq![]
                };
                if e > vs {
                    let name = slice_of(&cur, vs, e);
                    assert(name@ =~= cur@.skip(vs as int).take(ident_len(cur@.skip(vs as int)) as int));
                    out.push(name);
                }
                assert(views(out@) =~= prev + here);
                if vs >= cur.len() {
                    assert(views(out@) =~= views(out@) + seq![]);
                    return out;
                }
                let next = slice_of(&cur, vs, cur.len());
                assert(next@ =~= cur@.skip(vs as int));
                cur = next;
            },
        }
    }
}

fn line_usage_exec(line: &Vec<char>) -> (r: (Vec<Vec<char>>, Vec<char>))
    ensures
        views(r.0@).map_values(|n: Seq<char>| (n, r.1@)) == line_usage(line@),
{
    let trimmed = trim_start_v(line);
    let empty: Vec<char> = Vec::new();
    proof {
        reveal_strlit("#");
        reveal_strlit("=");
        reveal_strlit("{");
        reveal_strlit("}");
    }
    assert("#"@ =~= seq!['#']);
    assert("="@ =~= seq!['=']);
    assert("{"@ =~= seq!['{']);
    assert("}"@ =~= seq!['}']);
    if starts_with_exec(&trimmed, "#") || trimmed.len() == 0 || crate::text::eq_str(&trimmed, "{")
        || crate::text::eq_str(&trimmed, "}") {
        assert(views(Seq::<Vec<char>>::empty()).map_values(|n: Seq<char>| (n, empty@)) =~= seq![]);
        return (Vec::new(), empty);
    }
    match crate::text::find_str(&trimmed, "=") {
        None => {
            assert(views(Seq::<Vec<char>>::empty()).map_values(|n: Seq<char>| (n, empty@)) =~= seq![]);
            (Vec::new(), empty)
        },
        Some(eq) => {
            proof {
                lemma_find_from_bounds(trimmed@, seq!['='], 0);
            }
            let head = slice_of(&trimmed, 0, eq);
            assert(head@ =~= trimmed@.take(eq as int));
            let attr = trim_v(&head);
            if has_char(&attr, '"') || has_char(&attr, ' ') || attr.len() == 0 {
                assert(views(Seq::<Vec<char>>::empty()).map_values(|n: Seq<char>| (n, attr@)) =~= seq![]);
                return (Vec::new(), attr);
            }
            let rhs = slice_of(&trimmed, eq + 1, trimmed.len());
            assert(rhs@ =~= trimmed@.skip(eq + 1));
            let names = var_refs_exec(&rhs);
            (names, attr)
        },
    }
}

/// Build a map `variable_name → attribute names` by scanning raw source HCL blocks
/// for lines of the form `attr = ... var.NAME ...`.
pub fn build_var_usage_map(source_hcl_blocks: &[&str]) -> (r: VarUsageMap)
    ensures
        r.wf(),
        r@ == group_pairs(
            seq![],
            blocks_usage(source_hcl_blocks@.map_values(|b: &str| b@)),
        ),
{
    let mut map = VarUsageMap { names: Vec::new(), attrs: Vec::new() };
    let ghost bs = source_hcl_blocks@.map_values(|b: &str| b@);
    assert(map@ =~= seq![]);
    let mut bi: usize = 0;
    assert(bs.skip(0) =~= bs);
    while bi < source_hcl_blocks.len()
        invariant
            bi <= source_hcl_blocks@.len(),
            bs == source_hcl_blocks@.map_values(|b: &str| b@),
            map.wf(),
            group_pairs(seq![], blocks_usage(bs)) == group_pairs(map@, blocks_usage(bs.skip(bi as int))),
        decreases source_hcl_blocks@.len() - bi,
    {
        let v = chars_of(source_hcl_blocks[bi]);
        let ls = lines_v(&v);
        assert(bs.skip(bi as int)[0] == v@);
        assert(bs.skip(bi as int).drop_first() =~= bs.skip(bi + 1));
        proof {
            lemma_group_pairs_append(map@, lines_usage(views(ls@)), blocks_usage(bs.skip(bi + 1)));
        }
        let mut li: usize = 0;
        assert(views(ls@).skip(0) =~= views(ls@));
        while li < ls.len()
            invariant
                li <= ls@.len(),
                map.wf(),
                group_pairs(seq![], blocks_usage(bs)) == group_pairs(
                    group_pairs(map@, lines_usage(views(ls@).skip(li as int))),
                    blocks_usage(bs.skip(bi + 1)),
                ),
            decreases ls@.len() - li,
        {
            let (names, attr) = line_usage_exec(&ls[li]);
            let ghost ps = views(names@).map_values(|n: Seq<char>| (n, attr@));
            assert(views(ls@).skip(li as int)[0] == ls@[li as int]@);
            assert(views(ls@).skip(li as int).drop_first() =~= views(ls@).skip(li + 1));
            assert(lines_usage(views(ls@).skip(li as int)) == ps + lines_usage(
                views(ls@).skip(li + 1),
            ));
            assert(ps.skip(0) =~= ps);
            proof {
                lemma_group_pairs_append(
                    map@,
                    ps,
                    lines_usage(views(ls@).skip(li + 1)),
                );
            }
            let mut k: usize = 0;
            while k < names.len()
                invariant
                    k <= names@.len(),
                    map.wf(),
                    ps == views(names@).map_values(|n: Seq<char>| (n, attr@)),
                    group_pairs(seq![], blocks_usage(bs)) == group_pairs(
                        group_pairs(
                            group_pairs(map@, ps.skip(k as int)),
                            lines_usage(views(ls@).skip(li + 1)),
                        ),
                        blocks_usage(bs.skip(bi + 1)),
                    ),
                decreases names@.len() - k,
            {
                assert(ps.skip(k as int)[0] == (names@[k as int]@, attr@));
                assert(ps.skip(k as int).drop_first() =~= ps.skip(k + 1));
                map.add(&names[k], &attr);
                k += 1;
            }
            assert(ps.skip(names@.len() as int) =~= seq![]);
            li += 1;
        }
        assert(views(ls@).skip(ls@.len() as int) =~= seq![]);
        bi += 1;
    }
    assert(bs.skip(bi as int) =~= seq![]);
    map
}

pub proof fn lemma_group_pairs_append(
    g: Seq<(Seq<char>, Seq<Seq<char>>)>,
    a: Seq<(Seq<char>, Seq<char>)>,
    b: Seq<(Seq<char>, Seq<char>)>,
)
    ensures
        group_pairs(g, a + b) == group_pairs(group_pairs(g, a), b),
    decreases a.len(),
{
    if a.len() == 0 {
        assert(a + b =~= b);
    } else {
        assert((a + b).drop_first() =~= a.drop_first() + b);
        lemma_group_pairs_append(group_add(g, a[0].0, a[0].1), a.drop_first(), b);
    }
}


// ───────────────────────── annotations ─────────────────────────

/// One `#   · SIGNAL` line per signal.
pub open spec fn signal_lines(s: Seq<Seq<char>>) -> Seq<char>
    decreases s.len(),
{
    if s.len() == 0 {
        seq![]
    } else {
        signal_lines(s.drop_last()) + "#   · "@ + s.last() + "\n"@
    }
}

/// The comment lines placed above a variable block for a conversion.
pub open spec fn spec_var_annotation(name: Seq<char>, c: VarConversionModel) -> Seq<char> {
    let label = spec_confidence_label(c.confidence);
    let kind = c.kind.spec_label();
    if c.confidence >= 8 {
        match (c.original_default, c.converted_value) {
            (Some(o), Some(cv)) => "# AUTO-CONVERTED ["@ + label + "]: '"@ + o + "' → '"@ + cv
                + "' ("@ + kind + ")\n"@,
            _ => "# REVIEW ["@ + label + "]: '"@ + name + "' is likely a "@ + kind
                + " variable — update manually\n"@ + signal_lines(c.signals),
        }
    } else if c.confidence >= 5 {
        match (c.original_default, c.converted_value) {
            (Some(o), Some(cv)) => "# AUTO-CONVERTED ["@ + label + "]: '"@ + o + "' → '"@ + cv
                + "' ("@ + kind + ")\n"@ + "#   Verify this mapping suits your use case\n"@,
            _ => "# REVIEW ["@ + label + "]: '"@ + name + "' may be a "@ + kind + " variable\n"@
                + signal_lines(c.signals),
        }
    } else {
        match (c.original_default, c.converted_value) {
            (Some(o), Some(cv)) => "# AUTO-CONVERTED [lowconfidence]: '"@ + o + "' → '"@ + cv
                + "' ("@ + kind + ")\n"@
                + "#   Low confidence — verify this is correct before applying\n"@,
            _ => if c.signals.len() >= 2 {
                "# POSSIBLE REVIEW: '"@ + name + "' might be a "@ + kind
                    + " variable (low confidence)\n"@ + signal_lines(c.signals)
            } else {
                seq![]
            },
        }
    }
}

fn push_signal_lines(out: &mut String, sigs: &Vec<String>)
    ensures
        final(out)@ == old(out)@ + signal_lines(strs_view(sigs@)),
{
    let mut i: usize = 0;
    while i < sigs.len()
        invariant
            i <= sigs@.len(),
            out@ == old(out)@ + signal_lines(strs_view(sigs@).take(i as int)),
        decreases sigs@.len() - i,
    {
        let ghost before = out@;
        push_str(out, "#   · ");
        push_str(out, sigs[i].as_str());
        push_str(out, "\n");
        assert(strs_view(sigs@).take(i + 1).drop_last() =~= strs_view(sigs@).take(i as int));
        assert(out@ =~= old(out)@ + signal_lines(strs_view(sigs@).take(i + 1)));
        i += 1;
    }
    assert(strs_view(sigs@).take(sigs@.len() as int) =~= strs_view(sigs@));
}

/// Return annotation comment lines to prepend to the variable block.
pub fn build_var_annotation(name: &str, conversion: &VarConversion) -> (r: String)
    ensures
        r@ == spec_var_annotation(name@, conversion@),
{
    let label = conversion.confidence_label();
    let kind = conversion.kind.label();
    let mut out = String::new();
    let both = conversion.original_default.is_some() && conversion.converted_value.is_some();
    if conversion.confidence >= 8 {
        if both {
            let o = conversion.original_default.as_ref().unwrap();
            let cv = conversion.converted_value.as_ref().unwrap();
            push_str(&mut out, "# AUTO-CONVERTED [");
            push_str(&mut out, label);
            push_str(&mut out, "]: '");
            push_str(&mut out, o.as_str());
            push_str(&mut out, "' → '");
            push_str(&mut out, cv.as_str());
            push_str(&mut out, "' (");
            push_str(&mut out, kind);
            push_str(&mut out, ")\n");
        } else {
            push_str(&mut out, "# REVIEW [");
            push_str(&mut out, label);
            push_str(&mut out, "]: '");
            push_str(&mut out, name);
            push_str(&mut out, "' is likely a ");
            push_str(&mut out, kind);
            push_str(&mut out, " variable — update manually\n");
            push_signal_lines(&mut out, &conversion.signals);
        }
    } else if conversion.confidence >= 5 {
        if both {
            let o = conversion.original_default.as_ref().unwrap();
            let cv = conversion.converted_value.as_ref().unwrap();
            push_str(&mut out, "# AUTO-CONVERTED [");
            push_str(&mut out, label);
            push_str(&mut out, "]: '");
            push_str(&mut out, o.as_str());
            push_str(&mut out, "' → '");
            push_str(&mut out, cv.as_str());
            push_str(&mut out, "' (");
            push_str(&mut out, kind);
            push_str(&mut out, ")\n");
            push_str(&mut out, "#   Verify this mapping suits your use case\n");
        } else {
            push_str(&mut out, "# REVIEW [");
            push_str(&mut out, label);
            push_str(&mut out, "]: '");
            push_str(&mut out, name);
            push_str(&mut out, "' may be a ");
            push_str(&mut out, kind);
            push_str(&mut out, " variable\n");
            push_signal_lines(&mut out, &conversion.signals);
        }
    } else {
        if both {
            let o = conversion.original_default.as_ref().unwrap();
            let cv = conversion.converted_value.as_ref().unwrap();
            push_str(&mut out, "# AUTO-CONVERTED [lowconfidence]: '");
            push_str(&mut out, o.as_str());
            push_str(&mut out, "' → '");
            push_str(&mut out, cv.as_str());
            push_str(&mut out, "' (");
            push_str(&mut out, kind);
            push_str(&mut out, ")\n");
            push_str(&mut out, "#   Low confidence — verify this is correct before applying\n");
        } else if conversion.signals.len() >= 2 {
            push_str(&mut out, "# POSSIBLE REVIEW: '");
            push_str(&mut out, name);
            push_str(&mut out, "' might be a ");
            push_str(&mut out, kind);
            push_str(&mut out, " variable (low confidence)\n");
            push_signal_lines(&mut out, &conversion.signals);
        }
    }
    out
}

// ───────────────────────── rewriting ─────────────────────────

/// A line with the quoted original default replaced, when it is the `default` line.
pub open spec fn conv_line(line: Seq<char>, target: Seq<char>, repl: Seq<char>) -> Seq<char> {
    if starts_with(trim_start(line), "default"@) && contains(line, target) {
        replace_first(line, target, repl)
    } else {
        line
    }
}

/// The converted lines, each followed by a newline.
pub open spec fn conv_lines(ls: Seq<Seq<char>>, target: Seq<char>, repl: Seq<char>) -> Seq<char>
    decreases ls.len(),
{
    if ls.len() == 0 {
        seq![]
    } else {
        conv_lines(ls.drop_last(), target, repl) + conv_line(ls.last(), target, repl) + seq!['\n']
    }
}

/// The variable block with its `default = "ORIG"` line rewritten to the converted value.
pub open spec fn spec_apply_conversion(raw: Seq<char>, c: VarConversionModel) -> Seq<char> {
    match (c.original_default, c.converted_value) {
        (Some(o), Some(cv)) => {
            let out = conv_lines(lines(raw), seq!['"'] + o + seq!['"'], seq!['"'] + cv + seq!['"']);
            if !ends_with(raw, seq!['\n']) && ends_with(out, seq!['\n']) {
                out.drop_last()
            } else {
                out
            }
        },
        _ => raw,
    }
}

fn quoted(s: &String) -> (r: Vec<char>)
    ensures
        r@ == seq!['"'] + s@ + seq!['"'],
{
    let mut r: Vec<char> = Vec::new();
    r.push('"');
    let v = chars_of(s.as_str());
    let mut i: usize = 0;
    while i < v.len()
        invariant
            i <= v@.len(),
            r@ == seq!['"'] + v@.take(i as int),
        decreases v@.len() - i,
    {
        r.push(v[i]);
        assert(v@.take(i + 1) =~= v@.take(i as int).push(v@[i as int]));
        i += 1;
    }
    r.push('"');
    assert(v@.take(v@.len() as int) =~= v@);
    assert(r@ =~= seq!['"'] + s@ + seq!['"']);
    r
}

fn append_vec(out: &mut Vec<char>, v: &Vec<char>)
    ensures
        final(out)@ == old(out)@ + v@,
{
    let mut i: usize = 0;
    while i < v.len()
        invariant
            i <= v@.len(),
            out@ == old(out)@ + v@.take(i as int),
        decreases v@.len() - i,
    {
        out.push(v[i]);
        assert(v@.take(i + 1) =~= v@.take(i as int).push(v@[i as int]));
        i += 1;
    }
    assert(v@.take(v@.len() as int) =~= v@);
}

/// Rewrite the `default = "..."` line in a variable block to use the converted value.
/// All other lines are preserved verbatim.
pub fn apply_conversion_to_hcl(raw_hcl: &str, conversion: &VarConversion) -> (r: String)
    ensures
        r@ == spec_apply_conversion(raw_hcl@, conversion@),
{
    if conversion.original_default.is_none() || conversion.converted_value.is_none() {
        return raw_hcl.to_owned();
    }
    let o = conversion.original_default.as_ref().unwrap();
    let cv = conversion.converted_value.as_ref().unwrap();
    let target = quoted(o);
    let replacement = quoted(cv);
    let raw = chars_of(raw_hcl);
    let ls = lines_v(&raw);
    let mut out: Vec<char> = Vec::new();
    let mut i: usize = 0;
    while i < ls.len()
        invariant
            i <= ls@.len(),
            out@ == conv_lines(views(ls@).take(i as int), target@, replacement@),
        decreases ls@.len() - i,
    {
        let line = &ls[i];
        let trimmed = trim_start_v(line);
        if starts_with_exec(&trimmed, "default") && crate::text::contains_vec(line, &target) {
            let nl = replace_first_v(line, &target, &replacement);
            append_vec(&mut out, &nl);
        } else {
            append_vec(&mut out, line);
        }
        out.push('\n');
        assert(views(ls@).take(i + 1).drop_last() =~= views(ls@).take(i as int));
        i += 1;
    }
    assert(views(ls@).take(ls@.len() as int) =~= views(ls@));
    let raw_nl = raw.len() > 0 && raw[raw.len() - 1] == '\n';
    let out_nl = out.len() > 0 && out[out.len() - 1] == '\n';
    proof {
        assert(raw_nl == ends_with(raw@, seq!['\n'])) by {
            if raw@.len() > 0 {
                assert(raw@.subrange(raw@.len() - 1, raw@.len() as int) =~= seq![raw@.last()]);
            }
        }
        assert(out_nl == ends_with(out@, seq!['\n'])) by {
            if out@.len() > 0 {
                assert(out@.subrange(out@.len() - 1, out@.len() as int) =~= seq![out@.last()]);
            }
        }
    }
    if !raw_nl && out_nl {
        out.pop();
    }
    string_of(&out)
}


// ───────────────────────── detector helpers ─────────────────────────

/// A candidate conversion, as its model.
pub open spec fn opt_conv_view(o: Option<VarConversion>) -> Option<VarConversionModel> {
    match o {
        Some(c) => Some(c@),
        None => None,
    }
}

/// The detector result list built from up to two candidates, in order.
pub open spec fn some_views(a: Option<VarConversionModel>, b: Option<VarConversionModel>) -> Seq<
    VarConversionModel,
> {
    (match a {
        Some(x) => seq![x],
        None => seq![],
    }) + (match b {
        Some(x) => seq![x],
        None => seq![],
    })
}

/// Collects up to two candidates into the detector result list.
pub fn collect_candidates(a: Option<VarConversion>, b: Option<VarConversion>) -> (r: Vec<VarConversion>)
    ensures
        conv_views(r@) == some_views(opt_conv_view(a), opt_conv_view(b)),
{
    let mut results: Vec<VarConversion> = Vec::new();
    let ghost av = opt_conv_view(a);
    let ghost bv = opt_conv_view(b);
    if let Some(c) = a {
        results.push(c);
    }
    let ghost mid = conv_views(results@);
    assert(mid =~= match av {
        Some(x) => seq![x],
        None => seq![],
    });
    if let Some(c) = b {
        results.push(c);
        assert(conv_views(results@) =~= mid.push(c@));
    }
    assert(conv_views(results@) =~= some_views(av, bv));
    results
}

/// Whether one of `attrs` equals `lit`.
pub fn attrs_contain(attrs: &[String], lit: &str) -> (r: bool)
    ensures
        r == strs_view(attrs@).contains(lit@),
{
    let l = chars_of(lit);
    let mut i: usize = 0;
    while i < attrs.len()
        invariant
            i <= attrs@.len(),
            l@ == lit@,
            forall|j: int| 0 <= j < i ==> attrs@[j]@ != lit@,
        decreases attrs@.len() - i,
    {
        let a = chars_of(attrs[i].as_str());
        if seq_eq(&a, &l) {
            assert(strs_view(attrs@)[i as int] == lit@);
            return true;
        }
        i += 1;
    }
    assert forall|j: int| 0 <= j < strs_view(attrs@).len() implies strs_view(attrs@)[j] != lit@ by {
        assert(strs_view(attrs@)[j] == attrs@[j]@);
    }
    false
}

/// A string made of `a`, then `b`, then `c`.
pub fn concat3(a: &str, b: &str, c: &str) -> (r: String)
    ensures
        r@ == a@ + b@ + c@,
{
    let mut s = String::new();
    push_str(&mut s, a);
    push_str(&mut s, b);
    push_str(&mut s, c);
    assert(s@ =~= a@ + b@ + c@);
    s
}

/// An owned copy of an optional string.
pub fn opt_to_owned(o: Option<&str>) -> (r: Option<String>)
    ensures
        opt_string_view(r) == opt_str_view(o),
{
    match o {
        Some(s) => Some(s.to_owned()),
        None => None,
    }
}

/// A score of 0–13 capped at 10.
pub open spec fn cap10(score: nat) -> u8 {
    if score > 10 {
        10u8
    } else {
        score as u8
    }
}

proof fn lemma_conv_lines_cons(x: Seq<char>, rest: Seq<Seq<char>>, target: Seq<char>, repl: Seq<char>)
    ensures
        conv_lines(seq![x] + rest, target, repl) == conv_line(x, target, repl) + seq!['\n'] + conv_lines(rest, target, repl),
    decreases rest.len(),
{
    if rest.len() == 0 {
        assert(seq![x] + rest =~= seq![x]);
        assert(seq![x].drop_last() =~= Seq::<Seq<char>>::empty());
        assert(rest =~= Seq::<Seq<char>>::empty());
        assert(conv_lines(Seq::<Seq<char>>::empty(), target, repl) == Seq::<char>::empty());
        assert(seq![x].last() == x);
        assert(conv_lines(seq![x], target, repl) =~= conv_line(x, target, repl) + seq!['\n'] + conv_lines(rest, target, repl));
    } else {
        lemma_conv_lines_cons(x, rest.drop_last(), target, repl);
        assert((seq![x] + rest).drop_last() =~= seq![x] + rest.drop_last());
        assert((seq![x] + rest).last() == rest.last());
        assert(conv_lines(seq![x] + rest, target, repl) =~= conv_line(x, target, repl) + seq!['\n'] + conv_lines(rest, target, repl));
    }
}

/// Text with no carriage return and no `default` line, rebuilt line by line.
proof fn lemma_conv_lines_keep(s: Seq<char>, target: Seq<char>, repl: Seq<char>)
    requires
        forall|k: int| 0 <= k < s.len() ==> s[k] != '\r',
        forall|j: int| 0 <= j < lines(s).len() ==> !starts_with(trim_start(#[trigger] lines(s)[j]), "default"@),
    ensures
        conv_lines(lines(s), target, repl) == if s.len() == 0 || s.last() == '\n' { s } else { s.push('\n') },
    decreases s.len(),
{
    if s.len() > 0 {
        match find(s, seq!['\n']) {
            Some(i) => {
                lemma_find_from_bounds(s, seq!['\n'], 0);
                assert(matches_at(s, seq!['\n'], i));
                let x = s.take(i);
                let rest = s.skip(i + 1);
                assert(x.len() > 0 ==> x.last() != '\r');
                assert(crate::text::strip_cr(x) == x);
                assert(lines(s) == seq![x] + lines(rest));
                assert forall|j: int| 0 <= j < lines(rest).len() implies !starts_with(trim_start(#[trigger] lines(rest)[j]), "default"@) by {
                    assert(lines(s)[j + 1] == lines(rest)[j]);
                }
                assert(lines(s)[0] == x);
                lemma_conv_lines_keep(rest, target, repl);
                lemma_conv_lines_cons(x, lines(rest), target, repl);
                assert(s =~= x + seq!['\n'] + rest);
                if rest.len() > 0 {
                    assert(rest.last() == s.last());
                    assert(x + seq!['\n'] + rest.push('\n') =~= s.push('\n'));
                }
            },
            None => {
                lemma_find_from_bounds(s, seq!['\n'], 0);
                assert(lines(s) == seq![s]);
                assert(lines(s)[0] == s);
                assert(seq![s] =~= seq![s] + Seq::<Seq<char>>::empty());
                lemma_conv_lines_cons(s, Seq::<Seq<char>>::empty(), target, repl);
                if s.last() == '\n' {
                    assert(s.subrange(s.len() - 1, s.len() as int) =~= seq!['\n']);
                    assert(matches_at(s, seq!['\n'], s.len() - 1));
                }
            },
        }
    }
}

/// The conversion rewrites only the `default` line: a variable block with no `default`
/// line (and no carriage return) is left as it is.
pub proof fn conversion_keeps_other_lines(raw: Seq<char>, c: VarConversionModel)
    requires
        forall|k: int| 0 <= k < raw.len() ==> raw[k] != '\r',
        forall|j: int| 0 <= j < lines(raw).len() ==> !starts_with(trim_start(#[trigger] lines(raw)[j]), "default"@),
    ensures
        spec_apply_conversion(raw, c) == raw,
{
    match (c.original_default, c.converted_value) {
        (Some(o), Some(cv)) => {
            let t = seq!['"'] + o + seq!['"'];
            let r = seq!['"'] + cv + seq!['"'];
            lemma_conv_lines_keep(raw, t, r);
            let out = conv_lines(lines(raw), t, r);
            if raw.len() > 0 && raw.last() != '\n' {
                assert(out.drop_last() =~= raw);
                assert(raw.subrange(raw.len() - 1, raw.len() as int)[0] == raw.last());
                assert(!ends_with(raw, seq!['\n']));
                assert(out.subrange(out.len() - 1, out.len() as int) =~= seq!['\n']);
            } else if raw.len() > 0 {
                assert(raw.subrange(raw.len() - 1, raw.len() as int) =~= seq!['\n']);
            }
        },
        _ => {},
    }
}

/// The best candidate so far among `cs[..i]`, as `best_from` carries it.
pub open spec fn best_so_far(cs: Seq<VarConversionModel>, i: int, acc: Option<VarConversionModel>) -> bool {
    match acc {
        None => forall|k: int| 0 <= k < i ==> #[trigger] cs[k].confidence < 3,
        Some(b) => (exists|k: int| 0 <= k < i && #[trigger] cs[k] == b) && b.confidence >= 3
            && forall|k: int| 0 <= k < i ==> #[trigger] cs[k].confidence <= b.confidence,
    }
}

proof fn lemma_best_from(cs: Seq<VarConversionModel>, i: int, acc: Option<VarConversionModel>)
    requires
        0 <= i <= cs.len(),
        best_so_far(cs, i, acc),
    ensures
        best_so_far(cs, cs.len() as int, best_from(cs, i, acc)),
    decreases cs.len() - i,
{
    if i < cs.len() {
        let c = cs[i];
        let take = c.confidence >= 3 && match acc {
            Some(b) => c.confidence >= b.confidence,
            None => true,
        };
        let next = if take { Some(c) } else { acc };
        assert(best_so_far(cs, i + 1, next)) by {
            match acc {
                None => {
                    if take {
                        assert(cs[i] == c);
                    }
                },
                Some(b) => {
                    if !take {
                        let k = choose|k: int| 0 <= k < i && #[trigger] cs[k] == b;
                        assert(cs[k] == b);
                    } else {
                        assert(cs[i] == c);
                    }
                },
            }
        }
        lemma_best_from(cs, i + 1, next);
    }
}

/// The chosen conversion is a candidate of the highest confidence, which reaches 3;
/// there is none exactly when no candidate reaches 3.
pub proof fn best_candidate_has_highest_confidence(cs: Seq<VarConversionModel>)
    ensures
        spec_best(cs) is None <==> forall|k: int| 0 <= k < cs.len() ==> #[trigger] cs[k].confidence < 3,
        spec_best(cs) matches Some(b) ==> cs.contains(b) && b.confidence >= 3
            && forall|k: int| 0 <= k < cs.len() ==> #[trigger] cs[k].confidence <= b.confidence,
{
    lemma_best_from(cs, 0, None);
    match spec_best(cs) {
        Some(b) => {
            let k = choose|k: int| 0 <= k < cs.len() && #[trigger] cs[k] == b;
            assert(cs[k] == b);
            assert(cs[k].confidence >= 3);
        },
        None => {},
    }
}

} // verus!
