//! Nested blocks of a resource body, read with the HCL parser.
use vstd::prelude::*;

use crate::migration::types::opt_view;
use crate::terraform::types::attr_view;

verus! {

/// The blocks nested one level inside the top-level blocks of `raw`, in source order:
/// each as its identifier and its attributes as `(key, expression written as HCL)` pairs;
/// `None` when `raw` does not parse as an HCL body.
pub uninterp spec fn hcl_inner_blocks(raw: Seq<char>) -> Option<Seq<(Seq<char>, Seq<(Seq<char>, Seq<char>)>)>>;

/// Nested blocks, as characters.
pub open spec fn inner_view(v: Seq<(String, Vec<(String, String)>)>) -> Seq<(Seq<char>, Seq<(Seq<char>, Seq<char>)>)> {
    v.map_values(|b: (String, Vec<(String, String)>)| (b.0@, attr_view(b.1@)))
}

pub open spec fn opt_inner_view(o: Option<Vec<(String, Vec<(String, String)>)>>) -> Option<Seq<(Seq<char>, Seq<(Seq<char>, Seq<char>)>)>> {
    match o {
        Some(v) => Some(inner_view(v@)),
        None => None,
    }
}

/// Parses `raw` with `hcl::from_str` into an `hcl::Body` and lists, for every top-level
/// block, the blocks of its body: `Block::identifier`, and each attribute's `key` with its
/// expression written by the expression's `Display`. The result is named by
/// [`hcl_inner_blocks`]; `None` exactly when the parser returns an error.
#[verifier::external_body]
pub(crate) fn parse_inner_blocks(raw: &str) -> (r: Option<Vec<(String, Vec<(String, String)>)>>)
    ensures
        opt_inner_view(r) == hcl_inner_blocks(raw@),
{
    let body: hcl::Body = match hcl::from_str(raw) {
        Ok(b) => b,
        Err(_) => return None,
    };
    let mut out = Vec::new();
    for outer in body.blocks() {
        for b in outer.body().blocks() {
            let attrs = b.body().attributes().map(|a| (a.key().to_string(), format!("{}", a.expr()))).collect();
            out.push((b.identifier().to_string(), attrs));
        }
    }
    Some(out)
}


/// The top-level blocks of `raw`, in source order: each as its identifier and its
/// attributes, each attribute as its key and, when its expression is an array, the
/// array's elements (a string literal's value when the element is one, and the element
/// written as HCL); `None` when `raw` does not parse as an HCL body.
pub uninterp spec fn hcl_top_blocks(raw: Seq<char>) -> Option<Seq<(Seq<char>, Seq<(Seq<char>, Option<Seq<(Option<Seq<char>>, Seq<char>)>>)>)>>;

pub open spec fn elems_view(v: Seq<(Option<String>, String)>) -> Seq<(Option<Seq<char>>, Seq<char>)> {
    v.map_values(|e: (Option<String>, String)| (opt_view(e.0), e.1@))
}

pub open spec fn top_attrs_view(v: Seq<(String, Option<Vec<(Option<String>, String)>>)>) -> Seq<(Seq<char>, Option<Seq<(Option<Seq<char>>, Seq<char>)>>)> {
    v.map_values(|a: (String, Option<Vec<(Option<String>, String)>>)| (a.0@, match a.1 {
        Some(es) => Some(elems_view(es@)),
        None => None,
    }))
}

pub open spec fn top_view(o: Option<Vec<(String, Vec<(String, Option<Vec<(Option<String>, String)>>)>)>>) -> Option<Seq<(Seq<char>, Seq<(Seq<char>, Option<Seq<(Option<Seq<char>>, Seq<char>)>>)>)>> {
    match o {
        Some(v) => Some(v@.map_values(|b: (String, Vec<(String, Option<Vec<(Option<String>, String)>>)>)| (b.0@, top_attrs_view(b.1@)))),
        None => None,
    }
}

/// Parses `raw` with `hcl::from_str` into an `hcl::Body` and lists its top-level blocks
/// (`Body::blocks`): identifier, and each attribute's key with, for an
/// `Expression::Array`, its elements: the `String` of an `Expression::String`, and each
/// element written by the expression's `Display`. The result is named by
/// [`hcl_top_blocks`]; `None` exactly when the parser returns an error.
#[verifier::external_body]
pub(crate) fn parse_top_blocks(raw: &str) -> (r: Option<Vec<(String, Vec<(String, Option<Vec<(Option<String>, String)>>)>)>>)
    ensures
        top_view(r) == hcl_top_blocks(raw@),
{
    let body: hcl::Body = match hcl::from_str(raw) {
        Ok(b) => b,
        Err(_) => return None,
    };
    let elem = |e: &hcl::Expression| (if let hcl::Expression::String(s) = e { Some(s.clone()) } else { None }, e.to_string());
    Some(body.blocks().map(|b| (b.identifier().to_string(), b.body().attributes().map(|a| (a.key().to_string(),
        if let hcl::Expression::Array(es) = a.expr() { Some(es.iter().map(elem).collect()) } else { None })).collect())).collect())
}

/// The message of the error that the HCL parser reports for `raw` read as a body;
/// `None` when `raw` parses.
pub uninterp spec fn hcl_parse_error(raw: Seq<char>) -> Option<Seq<char>>;

/// Parses `raw` with `hcl::from_str` into an `hcl::Body`: `None` when it parses, else
/// the parser's error written by its `Display`. The result is named by
/// [`hcl_parse_error`]; it is `None` exactly when [`hcl_inner_blocks`] is `Some`, both
/// being read from the same parse.
#[verifier::external_body]
pub(crate) fn hcl_body_error(raw: &str) -> (r: Option<String>)
    ensures
        opt_view(r) == hcl_parse_error(raw@),
        r is None <==> hcl_inner_blocks(raw@) is Some,
{
    match hcl::from_str::<hcl::Body>(raw) {
        Ok(_) => None,
        Err(e) => Some(e.to_string()),
    }
}

} // verus!
