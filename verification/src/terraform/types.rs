//! A parsed Terraform resource block.
use vstd::prelude::*;

use crate::text::{
    chars_of, dec, opt_vec_view, parse_u32, parse_u32_v, push_u64, seq_eq, trim_char, trim_char_v,
};

verus! {

/// One `resource "TYPE" "NAME" { ... }` block of the source configuration.
#[derive(Debug, Clone)]
pub struct TerraformResource {
    pub resource_type: String,
    pub name: String,
    /// Top-level attributes as `(key, value)` pairs, values as written in the source.
    /// A parsed block binds each key once ([`attr_keys_distinct`]), and the pairs then
    /// read as a map; when a key does occur more than once, the last occurrence counts.
    pub attributes: Vec<(String, String)>,
    pub source_file: String,
    pub raw_hcl: String,
}

/// The attribute pairs of a resource, as character sequences.
pub open spec fn attr_view(attrs: Seq<(String, String)>) -> Seq<(Seq<char>, Seq<char>)> {
    attrs.map_values(|p: (String, String)| (p.0@, p.1@))
}

/// The value bound to `key` among the first `n` pairs (the last binding wins).
pub open spec fn lookup_upto(attrs: Seq<(Seq<char>, Seq<char>)>, key: Seq<char>, n: int) -> Option<
    Seq<char>,
>
    decreases n,
{
    if n <= 0 {
        None
    } else if attrs[n - 1].0 == key {
        Some(attrs[n - 1].1)
    } else {
        lookup_upto(attrs, key, n - 1)
    }
}

/// The value bound to `key` (the last binding wins).
pub open spec fn lookup(attrs: Seq<(Seq<char>, Seq<char>)>, key: Seq<char>) -> Option<Seq<char>> {
    lookup_upto(attrs, key, attrs.len() as int)
}

/// The attribute keys are distinct, as the keys of a map are.
pub open spec fn attr_keys_distinct(attrs: Seq<(Seq<char>, Seq<char>)>) -> bool {
    forall|i: int, j: int|
        0 <= i < j < attrs.len() ==> #[trigger] attrs[i].0 != #[trigger] attrs[j].0
}

proof fn lemma_lookup_upto_pair(
    attrs: Seq<(Seq<char>, Seq<char>)>,
    key: Seq<char>,
    v: Seq<char>,
    n: int,
)
    requires
        attr_keys_distinct(attrs),
        0 <= n <= attrs.len(),
    ensures
        lookup_upto(attrs, key, n) == Some(v) <==> exists|i: int| 0 <= i < n && attrs[i] == (key, v),
    decreases n,
{
    if n > 0 {
        lemma_lookup_upto_pair(attrs, key, v, n - 1);
        if attrs[n - 1].0 == key {
            if exists|i: int| 0 <= i < n && attrs[i] == (key, v) {
                let i = choose|i: int| 0 <= i < n && attrs[i] == (key, v);
                if i < n - 1 {
                    assert(attrs[i].0 != attrs[n - 1].0);
                }
            }
        } else if lookup_upto(attrs, key, n) == Some(v) {
            let i = choose|i: int| 0 <= i < n - 1 && attrs[i] == (key, v);
            assert(0 <= i < n && attrs[i] == (key, v));
        }
    }
}

/// Where the attribute keys are distinct, the pairs read as a map: looking up `key`
/// gives `v` exactly when the pair `(key, v)` is among them.
pub proof fn distinct_attribute_keys_read_as_a_map(
    attrs: Seq<(Seq<char>, Seq<char>)>,
    key: Seq<char>,
    v: Seq<char>,
)
    requires
        attr_keys_distinct(attrs),
    ensures
        lookup(attrs, key) == Some(v) <==> attrs.contains((key, v)),
{
    lemma_lookup_upto_pair(attrs, key, v, attrs.len() as int);
}

impl TerraformResource {
    /// The value of attribute `key`, by the model.
    pub open spec fn attr(&self, key: Seq<char>) -> Option<Seq<char>> {
        lookup(attr_view(self.attributes@), key)
    }

    /// The value of attribute `key`, if any.
    pub fn get_attr(&self, key: &str) -> (r: Option<Vec<char>>)
        ensures
            r matches Some(v) ==> self.attr(key@) == Some(v@),
            r is None ==> self.attr(key@) is None,
    {
        let kv = chars_of(key);
        let ghost av = attr_view(self.attributes@);
        let mut i = self.attributes.len();
        while i > 0
            invariant
                i <= self.attributes@.len(),
                av == attr_view(self.attributes@),
                kv@ == key@,
                lookup(av, key@) == lookup_upto(av, key@, i as int),
            decreases i,
        {
            let k = chars_of(self.attributes[i - 1].0.as_str());
            if seq_eq(&k, &kv) {
                let v = chars_of(self.attributes[i - 1].1.as_str());
                return Some(v);
            }
            i -= 1;
        }
        None
    }

    /// The value of attribute `key` with surrounding quotes trimmed.
    pub open spec fn attr_trim(&self, key: Seq<char>) -> Option<Seq<char>> {
        match self.attr(key) {
            Some(v) => Some(trim_char(v, '"')),
            None => None,
        }
    }

    /// The value of attribute `key` with quotes trimmed, or `default`.
    pub open spec fn attr_trim_or(&self, key: Seq<char>, default: Seq<char>) -> Seq<char> {
        match self.attr_trim(key) {
            Some(v) => v,
            None => default,
        }
    }

    /// The value of attribute `key` with surrounding quotes trimmed, if any.
    pub fn get_trimmed(&self, key: &str) -> (r: Option<Vec<char>>)
        ensures
            opt_vec_view(r) == self.attr_trim(key@),
    {
        match self.get_attr(key) {
            Some(v) => Some(trim_char_v(&v, '"')),
            None => None,
        }
    }

    /// The value of attribute `key` with quotes trimmed, or `default`.
    pub fn trimmed_or(&self, key: &str, default: &str) -> (r: Vec<char>)
        ensures
            r@ == self.attr_trim_or(key@, default@),
    {
        match self.get_trimmed(key) {
            Some(v) => v,
            None => chars_of(default),
        }
    }

    /// Whether attribute `key` is present.
    pub fn has_attr(&self, key: &str) -> (r: bool)
        ensures
            r == self.attr(key@) is Some,
    {
        self.get_attr(key).is_some()
    }
}

/// The kind of a top-level block that is carried over unchanged.
#[derive(Debug, Clone, Copy, PartialEq, Eq, Structural)]
pub enum PassthroughKind {
    Variable,
    Output,
    Locals,
    Data,
    Provider,
}

/// A top-level block other than a resource (variable, output, locals, data source,
/// provider), kept as written.
#[derive(Debug, Clone)]
pub struct PassthroughBlock {
    pub kind: PassthroughKind,
    pub name: Option<String>,
    pub raw_hcl: String,
    pub source_file: String,
}

/// A `u32` attribute (quotes trimmed) when it parses, else `d`.
pub open spec fn attr_u32_or(res: TerraformResource, key: Seq<char>, d: u32) -> u32 {
    match res.attr_trim(key) {
        Some(v) => match parse_u32(v) {
            Some(n) => n,
            None => d,
        },
        None => d,
    }
}

/// [`attr_u32_or`] on a resource.
pub fn attr_u32_or_exec(res: &TerraformResource, key: &str, d: u32) -> (r: u32)
    ensures
        r == attr_u32_or(*res, key@, d),
{
    match res.get_trimmed(key) {
        Some(v) => match parse_u32_v(&v) {
            Some(n) => n,
            None => d,
        },
        None => d,
    }
}

/// The decimal text of `n`.
pub fn num_string(n: u32) -> (r: String)
    ensures
        r@ == dec(n as nat),
{
    let mut s = String::new();
    push_u64(&mut s, n as u64);
    s
}

} // verus!
