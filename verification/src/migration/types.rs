//! The outcome of mapping one source resource.
use vstd::prelude::*;

use crate::terraform::types::TerraformResource;

verus! {

/// How completely a source resource converts to UpCloud.
#[derive(Debug, Clone, Copy, PartialEq, Eq, Structural)]
pub enum MigrationStatus {
    /// Direct 1:1 mapping, full auto-convert.
    Native,
    /// Mapping exists, minor manual tweaks.
    Compatible,
    /// Partial mapping, significant manual work.
    Partial,
    /// No equivalent, full manual migration.
    Unsupported,
    /// Not recognized (other provider or custom).
    Unknown,
    /// Not a cloud-provider resource; carried over unchanged.
    Passthrough,
}

impl MigrationStatus {
    pub open spec fn spec_label(self) -> Seq<char> {
        match self {
            MigrationStatus::Native => "NATIVE"@,
            MigrationStatus::Compatible => "COMPATIBLE"@,
            MigrationStatus::Partial => "PARTIAL"@,
            MigrationStatus::Unsupported => "UNSUPPORTED"@,
            MigrationStatus::Unknown => "UNKNOWN"@,
            MigrationStatus::Passthrough => "PASSTHROUGH"@,
        }
    }

    /// Upper-case name shown in reports.
    pub fn label(&self) -> (r: &'static str)
        ensures
            r@ == self.spec_label(),
    {
        match self {
            MigrationStatus::Native => "NATIVE",
            MigrationStatus::Compatible => "COMPATIBLE",
            MigrationStatus::Partial => "PARTIAL",
            MigrationStatus::Unsupported => "UNSUPPORTED",
            MigrationStatus::Unknown => "UNKNOWN",
            MigrationStatus::Passthrough => "PASSTHROUGH",
        }
    }
}

/// The mapping of one source resource.
#[derive(Debug, Clone)]
pub struct MigrationResult {
    pub resource_type: String,
    pub resource_name: String,
    pub source_file: String,
    pub status: MigrationStatus,
    pub upcloud_type: String,
    /// Fully renderable HCL written to the output .tf file.
    pub upcloud_hcl: Option<String>,
    /// HCL snippet that must be manually merged into another resource.
    pub snippet: Option<String>,
    /// Name of the parent resource this should be merged into.
    pub parent_resource: Option<String>,
    pub notes: Vec<String>,
    /// Raw source HCL of the original resource block, for diff display.
    pub source_hcl: Option<String>,
}

/// An optional string, as characters.
pub open spec fn opt_view(o: Option<String>) -> Option<Seq<char>> {
    match o {
        Some(s) => Some(s@),
        None => None,
    }
}

/// A list of strings, as characters.
pub open spec fn strs_view(v: Seq<String>) -> Seq<Seq<char>> {
    v.map_values(|s: String| s@)
}

/// The mathematical content of a [`MigrationResult`].
#[verifier::ext_equal]
pub struct ResultModel {
    pub resource_type: Seq<char>,
    pub resource_name: Seq<char>,
    pub source_file: Seq<char>,
    pub status: MigrationStatus,
    pub upcloud_type: Seq<char>,
    pub upcloud_hcl: Option<Seq<char>>,
    pub snippet: Option<Seq<char>>,
    pub parent_resource: Option<Seq<char>>,
    pub notes: Seq<Seq<char>>,
    pub source_hcl: Option<Seq<char>>,
}

impl View for MigrationResult {
    type V = ResultModel;

    open spec fn view(&self) -> ResultModel {
        ResultModel {
            resource_type: self.resource_type@,
            resource_name: self.resource_name@,
            source_file: self.source_file@,
            status: self.status,
            upcloud_type: self.upcloud_type@,
            upcloud_hcl: opt_view(self.upcloud_hcl),
            snippet: opt_view(self.snippet),
            parent_resource: opt_view(self.parent_resource),
            notes: strs_view(self.notes@),
            source_hcl: opt_view(self.source_hcl),
        }
    }
}

/// The result of mapping `res`: its type, name and file, with the given outcome and
/// no source HCL attached.
pub open spec fn result_model(
    res: TerraformResource,
    status: MigrationStatus,
    upcloud_type: Seq<char>,
    upcloud_hcl: Option<Seq<char>>,
    snippet: Option<Seq<char>>,
    parent_resource: Option<Seq<char>>,
    notes: Seq<Seq<char>>,
) -> ResultModel {
    ResultModel {
        resource_type: res.resource_type@,
        resource_name: res.name@,
        source_file: res.source_file@,
        status,
        upcloud_type,
        upcloud_hcl,
        snippet,
        parent_resource,
        notes,
        source_hcl: None,
    }
}

/// Builds the result of mapping `res` (no source HCL attached).
pub fn new_result(
    res: &TerraformResource,
    status: MigrationStatus,
    upcloud_type: &str,
    upcloud_hcl: Option<String>,
    snippet: Option<String>,
    parent_resource: Option<String>,
    notes: Vec<String>,
) -> (r: MigrationResult)
    ensures
        r@ == result_model(
            *res,
            status,
            upcloud_type@,
            opt_view(upcloud_hcl),
            opt_view(snippet),
            opt_view(parent_resource),
            strs_view(notes@),
        ),
{
    MigrationResult {
        resource_type: res.resource_type.clone(),
        resource_name: res.name.clone(),
        source_file: res.source_file.clone(),
        status,
        upcloud_type: String::from_str(upcloud_type),
        upcloud_hcl,
        snippet,
        parent_resource,
        notes,
        source_hcl: None,
    }
}

/// Appends a note.
pub fn push_note(v: &mut Vec<String>, s: String)
    ensures
        strs_view(final(v)@) == strs_view(old(v)@).push(s@),
{
    let ghost prev = strs_view(v@);
    v.push(s);
    assert(strs_view(v@) =~= prev.push(s@));
}

/// A list of notes holding the given text.
pub fn note(s: &str) -> (r: Vec<String>)
    ensures
        strs_view(r@) == seq![s@],
{
    let mut v: Vec<String> = Vec::new();
    push_note(&mut v, String::from_str(s));
    assert(strs_view(v@) =~= seq![s@]);
    v
}

/// `a` and `b` joined into one string.
pub fn cat2(a: &str, b: &str) -> (r: String)
    ensures
        r@ == a@ + b@,
{
    let mut s = String::from_str(a);
    crate::text::push_str(&mut s, b);
    s
}

/// `a`, `b` and `c` joined into one string.
pub fn cat3(a: &str, b: &str, c: &str) -> (r: String)
    ensures
        r@ == a@ + b@ + c@,
{
    let mut s = String::from_str(a);
    crate::text::push_str(&mut s, b);
    crate::text::push_str(&mut s, c);
    s
}

/// `a` to `e` joined into one string.
pub fn cat5(a: &str, b: &str, c: &str, d: &str, e: &str) -> (r: String)
    ensures
        r@ == a@ + b@ + c@ + d@ + e@,
{
    let mut s = String::from_str(a);
    crate::text::push_str(&mut s, b);
    crate::text::push_str(&mut s, c);
    crate::text::push_str(&mut s, d);
    crate::text::push_str(&mut s, e);
    s
}

} // verus!
