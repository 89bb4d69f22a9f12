//! The content of the generated output files.
use vstd::prelude::*;

use crate::migration::providers::{detect_provider, spec_detect_provider, DetectedProvider, ResourceRole, SourceProvider};
use crate::migration::providers::aws::AwsSourceProvider;
use crate::migration::providers::aws::generator_support::aws_rw_fuel;
use crate::migration::providers::aws::var_detector::AwsVarDetector;
use crate::migration::providers::azure::AzureSourceProvider;
use crate::migration::providers::azure::var_detector::AzureVarDetector;
use crate::migration::cross_ref::{
    build_cross_ref_tables, spec_cross_ref,
    contains_name, has_name, key_index, keys_of, lemma_key_index, kv_find, kv_get, names_view, opt_table, str_keys,
    CrossRefTables,
    XrefModel,
};
use crate::migration::generator::{
    build_merged_fw_hcl, extract_fw_count_line, extract_fw_rule_blocks, extract_fw_server_id_expr,
    resolve_firewall_server, server_info_get, server_name_from_server_id_expr,
    spec_build_merged_fw_hcl, spec_server_name_from_server_id_expr, spec_extract_fw_count_line, spec_extract_fw_rule_blocks,
    spec_extract_fw_server_id, spec_resolve_firewall_server,
};
use crate::migration::generator::{remove_todo_interpolations, spec_remove_todo_interpolations};
use crate::migration::var_detector::{
    blocks_usage, build_var_usage_map, group_pairs,
    analyze_variable_with, apply_conversion_to_hcl, build_var_annotation, extract_variable_info,
    spec_apply_conversion, spec_best, spec_var_annotation, spec_variable_info, VarConversionModel,
    VarDetector, VarKind, VarUsageMap,
};
use crate::migration::resolve::{
    inject_network_lifecycle_block, resolve_placeholders, spec_inject_network_lifecycle_block,
    spec_resolve_placeholders,
};
use crate::migration::types::{opt_view, MigrationResult, MigrationStatus};
use crate::terraform::types::{PassthroughBlock, PassthroughKind};
use crate::text::{
    before_char, before_char_v, chars_of, contains, contains_str, dec, eq_str, find, lines, lines_v,
    push_str, push_u64, push_vec, replace, replace_first, replace_v, seq_eq, slice_of, starts_with,
    starts_with_exec, string_of, trim_end_char, trim_end_char_v, trim_start, views,
    find_exec, find_str, lemma_find_from_bounds, matches_at, replace_first_v, trim_start_v, contains_vec,
    lemma_lines_no_newline,
};
use crate::migration::providers::hcl_blocks::{hcl_body_error, hcl_parse_error};
use crate::migration::types::cat3;

verus! {

/// The start of `providers.tf`, up to the UpCloud provider requirement.
pub open spec fn providers_head() -> Seq<char> {
    "terraform {\n  required_providers {\n    upcloud = {\n      source  = \"UpCloudLtd/upcloud\"\n      version = \"~> 5.0\"\n    }\n"@
}

/// The end of the `terraform` block, the token variable and the UpCloud provider.
pub open spec fn providers_mid() -> Seq<char> {
    "  }\n}\n\nvariable \"upcloud_token\" {\n  description = \"UpCloud API token\"\n  type        = string\n  sensitive   = true\n}\n\nprovider \"upcloud\" {\n  token = var.upcloud_token\n}\n"@
}

/// Whether a block is a provider entry whose name does (`req`) or does not start with
/// `required_provider:`.
pub open spec fn is_provider_entry(pt: PassthroughBlock, req: bool) -> bool {
    pt.kind == PassthroughKind::Provider && match pt.name {
        Some(n) => starts_with(n@, "required_provider:"@) == req,
        None => false,
    }
}

/// The other providers' `required_providers` entries among the first `n` blocks.
pub open spec fn required_lines(pts: Seq<PassthroughBlock>, n: int) -> Seq<char>
    decreases n,
{
    if n <= 0 {
        seq![]
    } else {
        required_lines(pts, n - 1) + if is_provider_entry(pts[n - 1], true) {
            "    "@ + pts[n - 1].raw_hcl@ + "\n"@
        } else {
            seq![]
        }
    }
}

/// The other providers' blocks among the first `n` blocks.
pub open spec fn provider_blocks(pts: Seq<PassthroughBlock>, n: int) -> Seq<char>
    decreases n,
{
    if n <= 0 {
        seq![]
    } else {
        provider_blocks(pts, n - 1) + if is_provider_entry(pts[n - 1], false) {
            "\n"@ + pts[n - 1].raw_hcl@ + "\n"@
        } else {
            seq![]
        }
    }
}

/// `providers.tf`: the UpCloud provider and the other providers carried over.
pub open spec fn spec_providers_tf(pts: Seq<PassthroughBlock>) -> Seq<char> {
    providers_head() + required_lines(pts, pts.len() as int) + providers_mid() + provider_blocks(pts, pts.len() as int)
}

fn provider_entry_exec(pt: &PassthroughBlock, req: bool) -> (r: bool)
    ensures
        r == is_provider_entry(*pt, req),
{
    pt.kind == PassthroughKind::Provider && match &pt.name {
        Some(n) => starts_with_exec(&chars_of(n.as_str()), "required_provider:") == req,
        None => false,
    }
}

/// The content of `providers.tf`.
pub fn providers_tf(passthroughs: &[PassthroughBlock]) -> (r: String)
    ensures
        r@ == spec_providers_tf(passthroughs@),
{
    let mut s = String::from_str("terraform {\n  required_providers {\n    upcloud = {\n      source  = \"UpCloudLtd/upcloud\"\n      version = \"~> 5.0\"\n    }\n");
    let mut i: usize = 0;
    while i < passthroughs.len()
        invariant
            i <= passthroughs@.len(),
            s@ == providers_head() + required_lines(passthroughs@, i as int),
        decreases passthroughs@.len() - i,
    {
        if provider_entry_exec(&passthroughs[i], true) {
            push_str(&mut s, "    ");
            push_str(&mut s, passthroughs[i].raw_hcl.as_str());
            push_str(&mut s, "\n");
        }
        i += 1;
    }
    push_str(&mut s, "  }\n}\n\nvariable \"upcloud_token\" {\n  description = \"UpCloud API token\"\n  type        = string\n  sensitive   = true\n}\n\nprovider \"upcloud\" {\n  token = var.upcloud_token\n}\n");
    let ghost mid = s@;
    let mut j: usize = 0;
    while j < passthroughs.len()
        invariant
            j <= passthroughs@.len(),
            mid == providers_head() + required_lines(passthroughs@, passthroughs@.len() as int) + providers_mid(),
            s@ == mid + provider_blocks(passthroughs@, j as int),
        decreases passthroughs@.len() - j,
    {
        if provider_entry_exec(&passthroughs[j], false) {
            push_str(&mut s, "\n");
            push_str(&mut s, passthroughs[j].raw_hcl.as_str());
            push_str(&mut s, "\n");
        }
        j += 1;
    }
    s
}

/// A result that needs manual merging: partial, with a snippet or notes, and not a
/// volume attachment that was injected into its server.
pub open spec fn is_partial_note<P: SourceProvider>(p: P, r: MigrationResult) -> bool {
    r.status == MigrationStatus::Partial && (r.snippet is Some || r.notes@.len() > 0)
        && !(p.spec_role(r.resource_type@) == ResourceRole::VolumeAttachment && r.parent_resource is Some)
}

/// A result with no UpCloud equivalent.
pub open spec fn is_unsupported_note(r: MigrationResult) -> bool {
    r.status == MigrationStatus::Unsupported || r.status == MigrationStatus::Unknown
}

/// Each note followed by a blank line, for the first `n` notes.
pub open spec fn para_notes(notes: Seq<String>, n: int) -> Seq<char>
    decreases n,
{
    if n <= 0 { seq![] } else { para_notes(notes, n - 1) + notes[n - 1]@ + "\n\n"@ }
}

/// Each note as a sub-item, for the first `n` notes.
pub open spec fn item_notes(notes: Seq<String>, n: int) -> Seq<char>
    decreases n,
{
    if n <= 0 { seq![] } else { item_notes(notes, n - 1) + "  - "@ + notes[n - 1]@ + "\n"@ }
}

/// The section of one partial resource.
pub open spec fn partial_section(r: MigrationResult) -> Seq<char> {
    "### `"@ + r.resource_type@ + "` **"@ + r.resource_name@ + "**  *("@ + r.source_file@ + ")*\n\n"@
        + para_notes(r.notes@, r.notes@.len() as int)
        + match r.snippet {
            Some(sn) => "```hcl\n"@ + sn@ + "\n```\n\n"@,
            None => seq![],
        }
}

/// The entry of one unsupported resource.
pub open spec fn unsupported_entry(r: MigrationResult) -> Seq<char> {
    "- **"@ + r.resource_type@ + "** `"@ + r.resource_name@ + "` *("@ + r.source_file@ + ")*\n"@
        + item_notes(r.notes@, r.notes@.len() as int)
}

/// The partial sections of the first `n` results, and how many there are.
pub open spec fn partial_sections<P: SourceProvider>(p: P, rs: Seq<MigrationResult>, n: int) -> (Seq<char>, nat)
    decreases n,
{
    if n <= 0 {
        (seq![], 0)
    } else {
        let prev = partial_sections(p, rs, n - 1);
        if is_partial_note(p, rs[n - 1]) { (prev.0 + partial_section(rs[n - 1]), prev.1 + 1) } else { prev }
    }
}

/// The unsupported entries of the first `n` results, and how many there are.
pub open spec fn unsupported_entries(rs: Seq<MigrationResult>, n: int) -> (Seq<char>, nat)
    decreases n,
{
    if n <= 0 {
        (seq![], 0)
    } else {
        let prev = unsupported_entries(rs, n - 1);
        if is_unsupported_note(rs[n - 1]) { (prev.0 + unsupported_entry(rs[n - 1]), prev.1 + 1) } else { prev }
    }
}

/// `MIGRATION_NOTES.md` with the number of partial and of unsupported resources; none
/// when there are neither.
pub open spec fn spec_migration_notes<P: SourceProvider>(p: P, rs: Seq<MigrationResult>, zone: Seq<char>, region: Seq<char>) -> Option<(Seq<char>, nat, nat)> {
    let ps = partial_sections(p, rs, rs.len() as int);
    let us = unsupported_entries(rs, rs.len() as int);
    if ps.1 == 0 && us.1 == 0 {
        None
    } else {
        Some((
            "# Migration Notes\n\n"@ + "Target zone: **"@ + zone + "**  \n"@ + "Object storage region: **"@ + region + "**\n\n"@
                + (if ps.1 > 0 {
                    "## Partial Resources — Manual Action Required\n\n"@
                        + "These resources have no standalone UpCloud equivalent. The code snippets below must be merged into the appropriate resource blocks.\n\n"@
                        + ps.0
                } else {
                    seq![]
                })
                + (if us.1 > 0 {
                    "## Unsupported Resources — No UpCloud Equivalent\n\n"@ + "These resources require fully manual migration:\n\n"@ + us.0 + "\n"@
                } else {
                    seq![]
                }),
            ps.1,
            us.1,
        ))
    }
}

fn push_notes(s: &mut String, notes: &Vec<String>, item: bool)
    ensures
        final(s)@ == old(s)@ + if item { item_notes(notes@, notes@.len() as int) } else { para_notes(notes@, notes@.len() as int) },
{
    let ghost start = old(s)@;
    let mut i: usize = 0;
    while i < notes.len()
        invariant
            i <= notes@.len(),
            s@ == start + if item { item_notes(notes@, i as int) } else { para_notes(notes@, i as int) },
        decreases notes@.len() - i,
    {
        if item {
            push_str(s, "  - ");
            push_str(s, notes[i].as_str());
            push_str(s, "\n");
        } else {
            push_str(s, notes[i].as_str());
            push_str(s, "\n\n");
        }
        i += 1;
    }
}

/// The content of `MIGRATION_NOTES.md` (covering partial and unsupported resources) with
/// how many of each it lists, or none when there are neither.
pub fn migration_notes<P: SourceProvider>(results: &[MigrationResult], zone: &str, objstorage_region: &str, provider: &P) -> (r: Option<(String, usize, usize)>)
    ensures
        match r {
            Some(t) => spec_migration_notes(*provider, results@, zone@, objstorage_region@) == Some((t.0@, t.1 as nat, t.2 as nat)),
            None => spec_migration_notes(*provider, results@, zone@, objstorage_region@) is None,
        },
{
    let mut parts = String::new();
    let mut np: usize = 0;
    let mut i: usize = 0;
    while i < results.len()
        invariant
            i <= results@.len(),
            np <= i,
            (parts@, np as nat) == partial_sections(*provider, results@, i as int),
        decreases results@.len() - i,
    {
        let r = &results[i];
        if r.status == MigrationStatus::Partial && (r.snippet.is_some() || r.notes.len() > 0)
            && !(provider.resource_role(r.resource_type.as_str()) == ResourceRole::VolumeAttachment && r.parent_resource.is_some()) {
            push_str(&mut parts, "### `");
            push_str(&mut parts, r.resource_type.as_str());
            push_str(&mut parts, "` **");
            push_str(&mut parts, r.resource_name.as_str());
            push_str(&mut parts, "**  *(");
            push_str(&mut parts, r.source_file.as_str());
            push_str(&mut parts, ")*\n\n");
            push_notes(&mut parts, &r.notes, false);
            match &r.snippet {
                Some(sn) => {
                    push_str(&mut parts, "```hcl\n");
                    push_str(&mut parts, sn.as_str());
                    push_str(&mut parts, "\n```\n\n");
                },
                None => {},
            }
            np += 1;
        }
        i += 1;
    }
    let mut uns = String::new();
    let mut nu: usize = 0;
    let mut j: usize = 0;
    while j < results.len()
        invariant
            j <= results@.len(),
            nu <= j,
            (uns@, nu as nat) == unsupported_entries(results@, j as int),
        decreases results@.len() - j,
    {
        let r = &results[j];
        if r.status == MigrationStatus::Unsupported || r.status == MigrationStatus::Unknown {
            push_str(&mut uns, "- **");
            push_str(&mut uns, r.resource_type.as_str());
            push_str(&mut uns, "** `");
            push_str(&mut uns, r.resource_name.as_str());
            push_str(&mut uns, "` *(");
            push_str(&mut uns, r.source_file.as_str());
            push_str(&mut uns, ")*\n");
            push_notes(&mut uns, &r.notes, true);
            nu += 1;
        }
        j += 1;
    }
    if np == 0 && nu == 0 {
        return None;
    }
    let mut s = String::from_str("# Migration Notes\n\n");
    push_str(&mut s, "Target zone: **");
    push_str(&mut s, zone);
    push_str(&mut s, "**  \n");
    push_str(&mut s, "Object storage region: **");
    push_str(&mut s, objstorage_region);
    push_str(&mut s, "**\n\n");
    if np > 0 {
        push_str(&mut s, "## Partial Resources — Manual Action Required\n\n");
        push_str(&mut s, "These resources have no standalone UpCloud equivalent. The code snippets below must be merged into the appropriate resource blocks.\n\n");
        push_str(&mut s, parts.as_str());
    }
    if nu > 0 {
        push_str(&mut s, "## Unsupported Resources — No UpCloud Equivalent\n\n");
        push_str(&mut s, "These resources require fully manual migration:\n\n");
        push_str(&mut s, uns.as_str());
        push_str(&mut s, "\n");
    }
    Some((s, np, nu))
}


// ── Output files ─────────────────────────────────────────────────────────────

/// What `Path::file_name` gives for a path, as text (`None` when the path has no final
/// component or it is not valid text).
pub uninterp spec fn path_file_name(path: Seq<char>) -> Option<Seq<char>>;

/// Calls `std::path::Path::file_name` on `path` and converts the component to text with
/// `OsStr::to_str`. The result is named by [`path_file_name`].
#[verifier::external_body]
fn file_name_of(path: &str) -> (r: Option<String>)
    ensures
        opt_view(r) == path_file_name(path@),
{
    std::path::Path::new(path).file_name().and_then(|n| n.to_str()).map(|s| s.to_string())
}

/// The file name of `path`, or `dflt`.
pub open spec fn basename_or(path: Seq<char>, dflt: Seq<char>) -> Seq<char> {
    match path_file_name(path) {
        Some(n) => n,
        None => dflt,
    }
}

fn basename_or_exec(path: &str, dflt: &str) -> (r: String)
    ensures
        r@ == basename_or(path@, dflt@),
{
    match file_name_of(path) {
        Some(n) => n,
        None => String::from_str(dflt),
    }
}

/// The output file of a result.
pub open spec fn result_file(r: MigrationResult) -> Seq<char> {
    basename_or(r.source_file@, "output.tf"@)
}

/// The output file of a carried-over block.
pub open spec fn pt_file(pt: PassthroughBlock) -> Seq<char> {
    basename_or(pt.source_file@, "variables.tf"@)
}

/// `names` with `f` added at the end unless it is there.
pub open spec fn add_name(names: Seq<Seq<char>>, f: Seq<char>) -> Seq<Seq<char>> {
    if has_name(names, f) { names } else { names.push(f) }
}

/// The files of the first `n` results that have HCL, in order of first appearance.
pub open spec fn result_files(rs: Seq<MigrationResult>, n: int) -> Seq<Seq<char>>
    decreases n,
{
    if n <= 0 {
        seq![]
    } else if rs[n - 1].upcloud_hcl is Some {
        add_name(result_files(rs, n - 1), result_file(rs[n - 1]))
    } else {
        result_files(rs, n - 1)
    }
}

/// `base` with the files of the first `n` carried-over blocks added.
pub open spec fn pt_files(base: Seq<Seq<char>>, pts: Seq<PassthroughBlock>, n: int) -> Seq<Seq<char>>
    decreases n,
{
    if n <= 0 { base } else { add_name(pt_files(base, pts, n - 1), pt_file(pts[n - 1])) }
}

/// Some server uses `var.ssh_public_key` and no block declares that variable.
pub open spec fn needs_ssh_var(rs: Seq<MigrationResult>, pts: Seq<PassthroughBlock>) -> bool {
    (exists|i: int| 0 <= i < rs.len() && match #[trigger] rs[i].upcloud_hcl {
        Some(h) => contains(h@, "var.ssh_public_key"@),
        None => false,
    }) && !(exists|j: int| 0 <= j < pts.len() && #[trigger] pts[j].kind == PassthroughKind::Variable && match pts[j].name {
        Some(n) => n@ == "ssh_public_key"@,
        None => false,
    })
}

/// The file of the first variable block, from index `j`.
pub open spec fn first_var_file(pts: Seq<PassthroughBlock>, j: int) -> Option<Seq<char>>
    decreases pts.len() - j,
{
    if j < 0 || j >= pts.len() {
        None
    } else if pts[j].kind == PassthroughKind::Variable {
        Some(pt_file(pts[j]))
    } else {
        first_var_file(pts, j + 1)
    }
}

/// Where a synthesized `ssh_public_key` variable goes: the file of the first variable
/// block, else `variables.tf`; nowhere when none is needed.
pub open spec fn ssh_var_file(rs: Seq<MigrationResult>, pts: Seq<PassthroughBlock>) -> Seq<char> {
    if needs_ssh_var(rs, pts) {
        match first_var_file(pts, 0) {
            Some(f) => f,
            None => "variables.tf"@,
        }
    } else {
        seq![]
    }
}

/// The output files, in order of first appearance: those of the results with HCL, of
/// the carried-over blocks, and of the synthesized SSH key variable.
pub open spec fn output_files(rs: Seq<MigrationResult>, pts: Seq<PassthroughBlock>) -> Seq<Seq<char>> {
    let f1 = pt_files(result_files(rs, rs.len() as int), pts, pts.len() as int);
    if needs_ssh_var(rs, pts) { add_name(f1, ssh_var_file(rs, pts)) } else { f1 }
}

fn add_name_exec(names: &mut Vec<String>, f: String)
    ensures
        names_view(final(names)@) == add_name(names_view(old(names)@), f@),
{
    if !contains_name(names, f.as_str()) {
        let ghost prev = names@;
        names.push(f);
        assert(names_view(names@) =~= names_view(prev).push(f@));
    }
}

fn needs_ssh_exec(results: &[MigrationResult], passthroughs: &[PassthroughBlock]) -> (r: bool)
    ensures
        r == needs_ssh_var(results@, passthroughs@),
{
    let mut uses = false;
    let mut i: usize = 0;
    while i < results.len()
        invariant
            i <= results@.len(),
            uses == exists|k: int| 0 <= k < i && match #[trigger] results@[k].upcloud_hcl {
                Some(h) => contains(h@, "var.ssh_public_key"@),
                None => false,
            },
        decreases results@.len() - i,
    {
        match &results[i].upcloud_hcl {
            Some(h) => {
                if contains_str(&chars_of(h.as_str()), "var.ssh_public_key") {
                    uses = true;
                }
            },
            None => {},
        }
        i += 1;
    }
    let mut declared = false;
    let mut j: usize = 0;
    while j < passthroughs.len()
        invariant
            j <= passthroughs@.len(),
            declared == exists|k: int| 0 <= k < j && #[trigger] passthroughs@[k].kind == PassthroughKind::Variable && match passthroughs@[k].name {
                Some(n) => n@ == "ssh_public_key"@,
                None => false,
            },
        decreases passthroughs@.len() - j,
    {
        let pt = &passthroughs[j];
        if pt.kind == PassthroughKind::Variable {
            match &pt.name {
                Some(n) => {
                    if eq_str(&chars_of(n.as_str()), "ssh_public_key") {
                        declared = true;
                    }
                },
                None => {},
            }
        }
        j += 1;
    }
    uses && !declared
}

/// The output files (in order of first appearance) and the file of the synthesized SSH
/// key variable (empty when none is needed).
pub fn output_file_names(results: &[MigrationResult], passthroughs: &[PassthroughBlock]) -> (r: (Vec<String>, String))
    ensures
        names_view(r.0@) == output_files(results@, passthroughs@),
        r.1@ == ssh_var_file(results@, passthroughs@),
{
    let mut files: Vec<String> = Vec::new();
    let mut i: usize = 0;
    while i < results.len()
        invariant
            i <= results@.len(),
            names_view(files@) == result_files(results@, i as int),
        decreases results@.len() - i,
    {
        if results[i].upcloud_hcl.is_some() {
            add_name_exec(&mut files, basename_or_exec(results[i].source_file.as_str(), "output.tf"));
        }
        i += 1;
    }
    let ghost base = names_view(files@);
    let mut first_var: Option<String> = None;
    let mut j: usize = 0;
    while j < passthroughs.len()
        invariant
            j <= passthroughs@.len(),
            base == result_files(results@, results@.len() as int),
            names_view(files@) == pt_files(base, passthroughs@, j as int),
            first_var_file(passthroughs@, 0) == match first_var {
                Some(f) => Some(f@),
                None => first_var_file(passthroughs@, j as int),
            },
        decreases passthroughs@.len() - j,
    {
        let f = basename_or_exec(passthroughs[j].source_file.as_str(), "variables.tf");
        if first_var.is_none() && passthroughs[j].kind == PassthroughKind::Variable {
            first_var = Some(string_of(&chars_of(f.as_str())));
        }
        add_name_exec(&mut files, f);
        j += 1;
    }
    let needs = needs_ssh_exec(results, passthroughs);
    let target = if needs {
        match first_var {
            Some(f) => f,
            None => String::from_str("variables.tf"),
        }
    } else {
        String::new()
    };
    if needs {
        add_name_exec(&mut files, string_of(&chars_of(target.as_str())));
    }
    (files, target)
}


// ── Rendering the resources of one file ──────────────────────────────────────

/// A firewall to write for one server: its `server_id` expression, the name of the first
/// security group, its `count` line, its rule blocks and its tagged notes.
pub open spec fn fw_view(v: Seq<(String, String, Option<String>, Vec<String>, Vec<String>)>) -> Seq<(Seq<char>, Seq<char>, Option<Seq<char>>, Seq<Seq<char>>, Seq<Seq<char>>)> {
    v.map_values(|e: (String, String, Option<String>, Vec<String>, Vec<String>)| (e.0@, e.1@, opt_view(e.2), names_view(e.3@), names_view(e.4@)))
}

/// The resolved HCL of each resource, by (source type, name).
pub open spec fn resolved_view(v: Seq<((String, String), String)>) -> Seq<((Seq<char>, Seq<char>), Seq<char>)> {
    v.map_values(|e: ((String, String), String)| ((e.0.0@, e.0.1@), e.1@))
}

/// The index of the first entry of `m` with key `k`.
pub open spec fn rkey_index(m: Seq<((Seq<char>, Seq<char>), Seq<char>)>, k: (Seq<char>, Seq<char>), i: int) -> Option<int>
    decreases m.len() - i,
{
    if i < 0 || i >= m.len() {
        None
    } else if m[i].0 == k {
        Some(i)
    } else {
        rkey_index(m, k, i + 1)
    }
}

/// `m` with `k` bound to `v`.
pub open spec fn rput(m: Seq<((Seq<char>, Seq<char>), Seq<char>)>, k: (Seq<char>, Seq<char>), v: Seq<char>) -> Seq<((Seq<char>, Seq<char>), Seq<char>)> {
    match rkey_index(m, k, 0) {
        Some(i) => m.update(i, (k, v)),
        None => m.push((k, v)),
    }
}

fn rfind(m: &Vec<((String, String), String)>, a: &str, b: &str) -> (r: Option<usize>)
    ensures
        match r {
            Some(i) => i < m@.len() && rkey_index(resolved_view(m@), (a@, b@), 0) == Some(i as int),
            None => rkey_index(resolved_view(m@), (a@, b@), 0) is None,
        },
{
    let ghost mv = resolved_view(m@);
    let av = chars_of(a);
    let bv = chars_of(b);
    let mut i: usize = 0;
    while i < m.len()
        invariant
            i <= m@.len(),
            mv == resolved_view(m@),
            av@ == a@,
            bv@ == b@,
            rkey_index(mv, (a@, b@), 0) == rkey_index(mv, (a@, b@), i as int),
        decreases m@.len() - i,
    {
        assert(mv[i as int].0 == (m@[i as int].0.0@, m@[i as int].0.1@));
        if seq_eq(&chars_of(m[i].0.0.as_str()), &av) && seq_eq(&chars_of(m[i].0.1.as_str()), &bv) {
            return Some(i);
        }
        i += 1;
    }
    None
}

fn rput_exec(m: &mut Vec<((String, String), String)>, a: String, b: String, v: String)
    ensures
        resolved_view(final(m)@) == rput(resolved_view(old(m)@), (a@, b@), v@),
{
    let ghost before = resolved_view(m@);
    match rfind(m, a.as_str(), b.as_str()) {
        Some(i) => {
            let _ = m.remove(i);
            m.insert(i, ((a, b), v));
            assert(resolved_view(m@) =~= before.update(i as int, ((a@, b@), v@)));
        },
        None => {
            m.push(((a, b), v));
            assert(resolved_view(m@) =~= before.push(((a@, b@), v@)));
        },
    }
}

/// The index of the first firewall entry for `expr`.
pub open spec fn fw_index(fw: Seq<(Seq<char>, Seq<char>, Option<Seq<char>>, Seq<Seq<char>>, Seq<Seq<char>>)>, expr: Seq<char>, i: int) -> Option<int>
    decreases fw.len() - i,
{
    if i < 0 || i >= fw.len() {
        None
    } else if fw[i].0 == expr {
        Some(i)
    } else {
        fw_index(fw, expr, i + 1)
    }
}

/// Rules and notes added to the entry for `expr` (a new entry when there is none).
pub open spec fn fw_add(
    fw: Seq<(Seq<char>, Seq<char>, Option<Seq<char>>, Seq<Seq<char>>, Seq<Seq<char>>)>,
    expr: Seq<char>,
    rname: Seq<char>,
    count_line: Option<Seq<char>>,
    rules: Seq<Seq<char>>,
    notes: Seq<Seq<char>>,
) -> Seq<(Seq<char>, Seq<char>, Option<Seq<char>>, Seq<Seq<char>>, Seq<Seq<char>>)> {
    match fw_index(fw, expr, 0) {
        Some(i) => fw.update(i, (fw[i].0, fw[i].1, fw[i].2, fw[i].3 + rules, fw[i].4 + notes)),
        None => fw.push((expr, rname, count_line, rules, notes)),
    }
}

/// Each note prefixed with the security group it came from.
pub open spec fn tagged(notes: Seq<Seq<char>>, name: Seq<char>) -> Seq<Seq<char>> {
    notes.map_values(|n: Seq<char>| "["@ + name + "] "@ + n)
}

/// `# NOTE:` comment lines of the first `n` notes.
pub open spec fn note_lines(notes: Seq<Seq<char>>, n: int) -> Seq<char>
    decreases n,
{
    if n <= 0 { seq![] } else { note_lines(notes, n - 1) + "# NOTE: "@ + notes[n - 1] + "\n"@ }
}

/// The firewall HCL for each of the first `j` servers: entries added for those it
/// resolves to, whether any did, and the first resolved HCL.
pub open spec fn fw_servers_fold(
    resolved: Seq<char>,
    servers: Seq<Seq<char>>,
    sim: Seq<(Seq<char>, Option<Seq<char>>)>,
    rname: Seq<char>,
    notes: Seq<Seq<char>>,
    fw: Seq<(Seq<char>, Seq<char>, Option<Seq<char>>, Seq<Seq<char>>, Seq<Seq<char>>)>,
    j: int,
) -> (Seq<(Seq<char>, Seq<char>, Option<Seq<char>>, Seq<Seq<char>>, Seq<Seq<char>>)>, bool, Option<Seq<char>>)
    decreases j,
{
    if j <= 0 {
        (fw, false, None)
    } else {
        let prev = fw_servers_fold(resolved, servers, sim, rname, notes, fw, j - 1);
        let rfs = spec_resolve_firewall_server(resolved, servers[j - 1], kv_get(sim, servers[j - 1]));
        if contains(rfs, "upcloud_server.<TODO>.id"@) {
            prev
        } else {
            let first = if prev.2 is Some { prev.2 } else { Some(rfs) };
            match spec_extract_fw_server_id(rfs) {
                Some(expr) => (
                    fw_add(prev.0, expr, rname, spec_extract_fw_count_line(rfs), spec_extract_fw_rule_blocks(rfs), tagged(notes, rname)),
                    true,
                    first,
                ),
                None => (prev.0, true, first),
            }
        }
    }
}

/// The file content, firewall entries, resolved HCL and log after one result.
pub open spec fn render_step<P: SourceProvider>(
    p: P,
    r: MigrationResult,
    zone: Seq<char>,
    region: Seq<char>,
    x: XrefModel,
    st: (Seq<char>, Seq<(Seq<char>, Seq<char>, Option<Seq<char>>, Seq<Seq<char>>, Seq<Seq<char>>)>, Seq<((Seq<char>, Seq<char>), Seq<char>)>, Seq<Seq<char>>),
) -> (Seq<char>, Seq<(Seq<char>, Seq<char>, Option<Seq<char>>, Seq<Seq<char>>, Seq<Seq<char>>)>, Seq<((Seq<char>, Seq<char>), Seq<char>)>, Seq<Seq<char>>) {
    let key = (r.resource_type@, r.resource_name@);
    let notes = names_view(r.notes@);
    match r.upcloud_hcl {
        None => st,
        Some(h) => if r.status == MigrationStatus::Passthrough {
            let rw = p.spec_rewrite(h@);
            (st.0 + "# "@ + r.resource_type@ + " "@ + r.resource_name@ + " (non-cloud-provider resource, kept as is)\n"@ + rw + "\n"@, st.1, rput(st.2, key, rw), st.3)
        } else {
            let r0 = spec_resolve_placeholders(p, h@, r.resource_name@, zone, region, x);
            let resolved = if r.upcloud_type@ == "upcloud_network"@ && x.k8s_names.len() > 0 { spec_inject_network_lifecycle_block(r0) } else { r0 };
            if r.upcloud_type@ == "upcloud_firewall_rules"@ {
                let servers = match kv_get(x.firewall_to_server_map, r.resource_name@) {
                    Some(s) => s,
                    None => seq![r.resource_name@],
                };
                let fo = fw_servers_fold(resolved, servers, x.server_info_map, r.resource_name@, notes, st.1, servers.len() as int);
                let res = rput(st.2, key, match fo.2 { Some(f) => f, None => resolved });
                if fo.1 {
                    (st.0, fo.0, res, st.3)
                } else {
                    (st.0 + note_lines(notes, notes.len() as int) + resolved + "\n"@, fo.0, res,
                        st.3.push("  [TODO] upcloud_firewall_rules."@ + r.resource_name@ + ": server_id unresolved — assign manually"@))
                }
            } else {
                (st.0 + "# "@ + r.resource_type@ + " "@ + r.resource_name@ + "\n"@ + note_lines(notes, notes.len() as int) + resolved + "\n"@, st.1, rput(st.2, key, resolved), st.3)
            }
        },
    }
}

/// The rewrites of passthrough results are defined.
pub open spec fn rewrite_ok_results<P: SourceProvider>(p: P, rs: Seq<MigrationResult>) -> bool {
    forall|i: int| 0 <= i < rs.len() ==> match #[trigger] rs[i].upcloud_hcl {
        Some(h) => rs[i].status == MigrationStatus::Passthrough ==> p.spec_rewrite_ok(h@),
        None => true,
    }
}

/// The state after the first `n` results of file `f`.
pub open spec fn render_results<P: SourceProvider>(
    p: P,
    rs: Seq<MigrationResult>,
    f: Seq<char>,
    zone: Seq<char>,
    region: Seq<char>,
    x: XrefModel,
    st0: (Seq<char>, Seq<(Seq<char>, Seq<char>, Option<Seq<char>>, Seq<Seq<char>>, Seq<Seq<char>>)>, Seq<((Seq<char>, Seq<char>), Seq<char>)>, Seq<Seq<char>>),
    n: int,
) -> (Seq<char>, Seq<(Seq<char>, Seq<char>, Option<Seq<char>>, Seq<Seq<char>>, Seq<Seq<char>>)>, Seq<((Seq<char>, Seq<char>), Seq<char>)>, Seq<Seq<char>>)
    decreases n,
{
    if n <= 0 {
        st0
    } else {
        let prev = render_results(p, rs, f, zone, region, x, st0, n - 1);
        if rs[n - 1].upcloud_hcl is Some && result_file(rs[n - 1]) == f {
            render_step(p, rs[n - 1], zone, region, x, prev)
        } else {
            prev
        }
    }
}

proof fn lemma_server_info_get(m: Seq<(String, Option<String>)>, k: Seq<char>)
    ensures
        server_info_get(m, k) == kv_get(opt_table(m), k),
    decreases m.len(),
{
    let keys = keys_of(opt_table(m));
    if m.len() > 0 {
        assert(keys[0] == m[0].0@);
        if m[0].0@ == k {
            assert(key_index(keys, k) == Some(0int));
            assert(opt_table(m)[0].1 == opt_view(m[0].1));
            assert(opt_view(m[0].1) == crate::migration::var_detector::opt_string_view(m[0].1));
        } else {
            lemma_server_info_get(m.drop_first(), k);
            let t = keys_of(opt_table(m.drop_first()));
            lemma_key_index(t, k);
            assert(keys.drop_first() =~= t);
            match key_index(t, k) {
                Some(i) => {
                    assert(key_index(keys, k) == Some(i + 1));
                    assert(opt_table(m)[i + 1] == opt_table(m.drop_first())[i]);
                },
                None => {
                    assert(key_index(keys, k) is None);
                },
            }
        }
    } else {
        assert(keys =~= seq![]);
    }
}

fn push_note_lines(s: &mut String, notes: &Vec<String>)
    ensures
        final(s)@ == old(s)@ + note_lines(names_view(notes@), notes@.len() as int),
{
    let ghost start = old(s)@;
    let ghost nv = names_view(notes@);
    let mut i: usize = 0;
    while i < notes.len()
        invariant
            i <= notes@.len(),
            nv == names_view(notes@),
            s@ == start + note_lines(nv, i as int),
        decreases notes@.len() - i,
    {
        assert(nv[i as int] == notes@[i as int]@);
        push_str(s, "# NOTE: ");
        push_str(s, notes[i].as_str());
        push_str(s, "\n");
        i += 1;
    }
}

fn tagged_exec(notes: &Vec<String>, name: &str) -> (r: Vec<String>)
    ensures
        names_view(r@) == tagged(names_view(notes@), name@),
{
    let mut out: Vec<String> = Vec::new();
    let mut i: usize = 0;
    while i < notes.len()
        invariant
            i <= notes@.len(),
            names_view(out@) == tagged(names_view(notes@.take(i as int)), name@),
        decreases notes@.len() - i,
    {
        let mut t = String::from_str("[");
        push_str(&mut t, name);
        push_str(&mut t, "] ");
        push_str(&mut t, notes[i].as_str());
        let ghost prev = out@;
        out.push(t);
        assert(notes@.take(i + 1) =~= notes@.take(i as int).push(notes@[i as int]));
        assert(names_view(out@) =~= names_view(prev).push(t@));
        assert(tagged(names_view(notes@.take(i + 1)), name@) =~= tagged(names_view(notes@.take(i as int)), name@).push("["@ + name@ + "] "@ + notes@[i as int]@));
        i += 1;
    }
    assert(notes@.take(notes@.len() as int) =~= notes@);
    out
}

fn append_all(dst: &mut Vec<String>, src: Vec<String>)
    ensures
        names_view(final(dst)@) == names_view(old(dst)@) + names_view(src@),
{
    let ghost start = names_view(dst@);
    let mut i: usize = 0;
    while i < src.len()
        invariant
            i <= src@.len(),
            names_view(dst@) == start + names_view(src@.take(i as int)),
        decreases src@.len() - i,
    {
        let ghost prev = dst@;
        dst.push(string_of(&chars_of(src[i].as_str())));
        assert(src@.take(i + 1) =~= src@.take(i as int).push(src@[i as int]));
        assert(names_view(dst@) =~= names_view(prev).push(src@[i as int]@));
        assert(names_view(src@.take(i + 1)) =~= names_view(src@.take(i as int)).push(src@[i as int]@));
        i += 1;
    }
    assert(src@.take(src@.len() as int) =~= src@);
}

fn fw_add_exec(
    fw: &mut Vec<(String, String, Option<String>, Vec<String>, Vec<String>)>,
    expr: String,
    rname: &str,
    count_line: Option<String>,
    rules: Vec<String>,
    notes: Vec<String>,
)
    ensures
        fw_view(final(fw)@) == fw_add(fw_view(old(fw)@), expr@, rname@, opt_view(count_line), names_view(rules@), names_view(notes@)),
{
    let ghost before = fw_view(fw@);
    let mut i: usize = 0;
    let mut found: Option<usize> = None;
    while i < fw.len()
        invariant_except_break
            found is None,
        invariant
            i <= fw@.len(),
            before == fw_view(fw@),
            fw_index(before, expr@, 0) == fw_index(before, expr@, i as int),
        ensures
            found matches Some(k) ==> k < fw@.len() && fw_index(before, expr@, 0) == Some(k as int),
            found is None ==> fw_index(before, expr@, 0) is None,
        decreases fw@.len() - i,
    {
        assert(before[i as int].0 == fw@[i as int].0@);
        if eq_str(&chars_of(fw[i].0.as_str()), expr.as_str()) {
            found = Some(i);
            break;
        }
        i += 1;
    }
    match found {
        Some(k) => {
            let (e0, e1, e2, mut e3, mut e4) = fw.remove(k);
            let ghost old3 = names_view(e3@);
            let ghost old4 = names_view(e4@);
            append_all(&mut e3, rules);
            append_all(&mut e4, notes);
            fw.insert(k, (e0, e1, e2, e3, e4));
            assert(fw_view(fw@) =~= before.update(k as int, (before[k as int].0, before[k as int].1, before[k as int].2, old3 + names_view(rules@), old4 + names_view(notes@))));
        },
        None => {
            fw.push((expr, string_of(&chars_of(rname)), count_line, rules, notes));
            assert(fw_view(fw@) =~= before.push((expr@, rname@, opt_view(count_line), names_view(rules@), names_view(notes@))));
        },
    }
}

/// Render the resources of output file `f`: each result's resolved HCL with its notes
/// (non-cloud resources only with their provider references rewritten), and firewall
/// rules collected per server for merging.
pub fn render_resources<P: SourceProvider>(
    results: &[MigrationResult],
    f: &str,
    zone: &str,
    objstorage_region: &str,
    xref: &CrossRefTables,
    provider: &P,
    content: &mut String,
    fw: &mut Vec<(String, String, Option<String>, Vec<String>, Vec<String>)>,
    resolved: &mut Vec<((String, String), String)>,
    log: &mut Vec<String>,
)
    requires
        rewrite_ok_results(*provider, results@),
    ensures
        (final(content)@, fw_view(final(fw)@), resolved_view(final(resolved)@), names_view(final(log)@)) == render_results(
            *provider, results@, f@, zone@, objstorage_region@, xref@,
            (old(content)@, fw_view(old(fw)@), resolved_view(old(resolved)@), names_view(old(log)@)),
            results@.len() as int,
        ),
{
    let ghost st0 = (content@, fw_view(fw@), resolved_view(resolved@), names_view(log@));
    let ghost x = xref@;
    let mut i: usize = 0;
    while i < results.len()
        invariant
            i <= results@.len(),
            x == xref@,
            rewrite_ok_results(*provider, results@),
            (content@, fw_view(fw@), resolved_view(resolved@), names_view(log@)) == render_results(*provider, results@, f@, zone@, objstorage_region@, x, st0, i as int),
        decreases results@.len() - i,
    {
        let r = &results[i];
        let ghost prev = (content@, fw_view(fw@), resolved_view(resolved@), names_view(log@));
        match &r.upcloud_hcl {
            None => {},
            Some(h) => {
                let rf = basename_or_exec(r.source_file.as_str(), "output.tf");
                if eq_str(&chars_of(rf.as_str()), f) {
                    assert(match results@[i as int].upcloud_hcl { Some(hh) => results@[i as int].status == MigrationStatus::Passthrough ==> provider.spec_rewrite_ok(hh@), None => true });
                    let rt = r.resource_type.as_str();
                    let name = r.resource_name.as_str();
                    if r.status == MigrationStatus::Passthrough {
                        let rw = provider.rewrite_output_refs(h.as_str());
                        push_str(content, "# ");
                        push_str(content, rt);
                        push_str(content, " ");
                        push_str(content, name);
                        push_str(content, " (non-cloud-provider resource, kept as is)\n");
                        push_str(content, rw.as_str());
                        push_str(content, "\n");
                        rput_exec(resolved, string_of(&chars_of(rt)), string_of(&chars_of(name)), rw);
                    } else {
                        let r0 = resolve_placeholders(h.as_str(), name, zone, objstorage_region, xref, provider);
                        let res_hcl = if eq_str(&chars_of(r.upcloud_type.as_str()), "upcloud_network") && xref.k8s_names.len() > 0 {
                            inject_network_lifecycle_block(r0.as_str())
                        } else {
                            r0
                        };
                        if eq_str(&chars_of(r.upcloud_type.as_str()), "upcloud_firewall_rules") {
                            assert(str_keys(xref.firewall_to_server_map@) =~= keys_of(x.firewall_to_server_map));
                            let servers: Vec<String> = match kv_find(&xref.firewall_to_server_map, name) {
                                Some(k) => {
                                    assert(x.firewall_to_server_map[k as int].1 == names_view(xref.firewall_to_server_map@[k as int].1@));
                                    crate::migration::var_detector::copy_strings(&xref.firewall_to_server_map[k].1)
                                },
                                None => {
                                    let mut v: Vec<String> = Vec::new();
                                    v.push(string_of(&chars_of(name)));
                                    v
                                },
                            };
                            let ghost sv = names_view(servers@);
                            assert(sv == match kv_get(x.firewall_to_server_map, r.resource_name@) { Some(s) => s, None => seq![r.resource_name@] }) by {
                                assert(names_view(servers@) =~= crate::migration::types::strs_view(servers@));
                            }
                            let ghost fw_start = fw_view(fw@);
                            let mut any = false;
                            let mut first: Option<String> = None;
                            let mut j: usize = 0;
                            while j < servers.len()
                                invariant
                                    j <= servers@.len(),
                                    sv == names_view(servers@),
                                    x == xref@,
                                    name@ == r.resource_name@,
                                    (fw_view(fw@), any, opt_view(first)) == fw_servers_fold(res_hcl@, sv, x.server_info_map, r.resource_name@, names_view(r.notes@), fw_start, j as int),
                                decreases servers@.len() - j,
                            {
                                proof {
                                    lemma_server_info_get(xref.server_info_map@, servers@[j as int]@);
                                }
                                assert(sv[j as int] == servers@[j as int]@);
                                let rfs = resolve_firewall_server(res_hcl.as_str(), servers[j].as_str(), xref.server_info_map.as_slice());
                                assert(rfs@ == spec_resolve_firewall_server(res_hcl@, sv[j as int], kv_get(x.server_info_map, sv[j as int])));
                                if !contains_str(&chars_of(rfs.as_str()), "upcloud_server.<TODO>.id") {
                                    any = true;
                                    if first.is_none() {
                                        first = Some(string_of(&chars_of(rfs.as_str())));
                                    }
                                    match extract_fw_server_id_expr(rfs.as_str()) {
                                        Some(expr) => {
                                            let rules = extract_fw_rule_blocks(rfs.as_str());
                                            assert(names_view(rules@) =~= crate::migration::types::strs_view(rules@));
                                            let cl = extract_fw_count_line(rfs.as_str());
                                            assert(opt_view(cl) == crate::migration::var_detector::opt_string_view(cl));
                                            let tg = tagged_exec(&r.notes, name);
                                            fw_add_exec(fw, expr, name, cl, rules, tg);
                                        },
                                        None => {},
                                    }
                                }
                                j += 1;
                            }
                            let diff = match first {
                                Some(fh) => fh,
                                None => string_of(&chars_of(res_hcl.as_str())),
                            };
                            rput_exec(resolved, string_of(&chars_of(rt)), string_of(&chars_of(name)), diff);
                            if !any {
                                push_note_lines(content, &r.notes);
                                push_str(content, res_hcl.as_str());
                                push_str(content, "\n");
                                let mut m = String::from_str("  [TODO] upcloud_firewall_rules.");
                                push_str(&mut m, name);
                                push_str(&mut m, ": server_id unresolved — assign manually");
                                let ghost lprev = log@;
                                log.push(m);
                                assert(names_view(log@) =~= names_view(lprev).push(m@));
                            }
                        } else {
                            rput_exec(resolved, string_of(&chars_of(rt)), string_of(&chars_of(name)), string_of(&chars_of(res_hcl.as_str())));
                            push_str(content, "# ");
                            push_str(content, rt);
                            push_str(content, " ");
                            push_str(content, name);
                            push_str(content, "\n");
                            push_note_lines(content, &r.notes);
                            push_str(content, res_hcl.as_str());
                            push_str(content, "\n");
                        }
                    }
                }
            },
        }
        i += 1;
    }
}


// ── Merged firewalls ─────────────────────────────────────────────────────────

/// Each of the first `n` lines commented out.
pub open spec fn comment_lines(ls: Seq<Seq<char>>, n: int) -> Seq<char>
    decreases n,
{
    if n <= 0 { seq![] } else { comment_lines(ls, n - 1) + "# "@ + ls[n - 1] + "\n"@ }
}

/// Every line of `t` is a comment (starts with `#`) or blank.
pub open spec fn all_commented(t: Seq<char>) -> bool {
    &&& t.len() > 0 ==> (t[0] == '#' || t[0] == '\n')
    &&& forall|j: int|
        0 <= j < t.len() - 1 && #[trigger] t[j] == '\n' ==> (t[j + 1] == '#' || t[j + 1] == '\n')
}

proof fn lemma_commented_concat(a: Seq<char>, b: Seq<char>)
    requires
        all_commented(a),
        all_commented(b),
        a.len() == 0 || a.last() == '\n',
    ensures
        all_commented(a + b),
{
    let t = a + b;
    assert forall|j: int| 0 <= j < t.len() - 1 && #[trigger] t[j] == '\n' implies (t[j + 1] == '#'
        || t[j + 1] == '\n') by {
        if j < a.len() - 1 {
            assert(t[j] == a[j] && t[j + 1] == a[j + 1]);
        } else if j == a.len() - 1 {
            assert(t[j + 1] == b[0]);
        } else {
            assert(t[j] == b[j - a.len()] && t[j + 1] == b[j + 1 - a.len()]);
        }
    }
    if a.len() == 0 {
        assert(t =~= b);
    } else {
        assert(t[0] == a[0]);
    }
}

proof fn lemma_comment_lines(ls: Seq<Seq<char>>, n: int)
    requires
        0 <= n <= ls.len(),
        forall|k: int, j: int| 0 <= k < ls.len() && 0 <= j < ls[k].len() ==> #[trigger] ls[k][j] != '\n',
    ensures
        all_commented(comment_lines(ls, n)),
        n > 0 ==> comment_lines(ls, n).last() == '\n',
    decreases n,
{
    if n > 0 {
        lemma_comment_lines(ls, n - 1);
        reveal_strlit("# ");
        reveal_strlit("\n");
        let l = ls[n - 1];
        let b = "# "@ + l + "\n"@;
        assert forall|j: int| 0 <= j < b.len() - 1 && #[trigger] b[j] == '\n' implies (b[j + 1] == '#'
            || b[j + 1] == '\n') by {
            if j >= 2 {
                assert(b[j] == l[j - 2]);
                assert(l[j - 2] != '\n');
            }
        }
        assert(b[0] == '#');
        lemma_commented_concat(comment_lines(ls, n - 1), b);
        assert(comment_lines(ls, n) =~= comment_lines(ls, n - 1) + b);
    }
}

/// A firewall met again for a server that already has one is written after the
/// warning only as comment and blank lines, and the servers written stay as they were.
pub proof fn repeated_server_firewall_is_commented_out(
    e: (Seq<char>, Seq<char>, Option<Seq<char>>, Seq<Seq<char>>, Seq<Seq<char>>),
    prev: (Seq<char>, Seq<Seq<char>>, Seq<Seq<char>>),
)
    requires
        has_name(prev.1, spec_server_name_from_server_id_expr(e.0)),
    ensures
        ({
            let sn = spec_server_name_from_server_id_expr(e.0);
            let ls = lines(merged_of(e));
            let c = comment_lines(ls, ls.len() as int) + "\n"@;
            &&& fw_out_step(e, prev).0 == prev.0 + fw_warning(sn) + c
            &&& all_commented(c)
            &&& fw_out_step(e, prev).1 == prev.1
        }),
{
    let ls = lines(merged_of(e));
    lemma_lines_no_newline(merged_of(e));
    lemma_comment_lines(ls, ls.len() as int);
    reveal_strlit("\n");
    let nl = "\n"@;
    assert(all_commented(nl));
    lemma_commented_concat(comment_lines(ls, ls.len() as int), nl);
    let c = comment_lines(ls, ls.len() as int) + nl;
    let sn = spec_server_name_from_server_id_expr(e.0);
    assert(fw_out_step(e, prev).0 =~= prev.0 + fw_warning(sn) + c);
}

/// The security group a tagged note names.
pub open spec fn note_tag(n: Seq<char>) -> Option<Seq<char>> {
    if n.len() > 0 && n[0] == '[' { Some(before_char(n.drop_first(), ']')) } else { None }
}

/// The distinct security groups named by the first `k` notes.
pub open spec fn note_tags(notes: Seq<Seq<char>>, k: int) -> Seq<Seq<char>>
    decreases k,
{
    if k <= 0 {
        seq![]
    } else {
        match note_tag(notes[k - 1]) {
            Some(t) => add_name(note_tags(notes, k - 1), t),
            None => note_tags(notes, k - 1),
        }
    }
}

/// The warning written before a firewall for a server that already has one.
pub open spec fn fw_warning(sn: Seq<char>) -> Seq<char> {
    "# WARNING: firewall rules for server '"@ + sn + "' were already written by another output file.\n# Merge the rules below into that resource manually (UpCloud requires exactly one\n# upcloud_firewall_rules per server).\n"@
}

/// The merged firewall of an entry.
pub open spec fn merged_of(e: (Seq<char>, Seq<char>, Option<Seq<char>>, Seq<Seq<char>>, Seq<Seq<char>>)) -> Seq<char> {
    spec_build_merged_fw_hcl(e.1, e.0, match e.2 { Some(c) => c, None => seq![] }, e.3)
}

/// The text, servers written and log after one firewall entry: one firewall per server;
/// a server that already has one gets the rules commented out, with a warning.
pub open spec fn fw_out_step(
    e: (Seq<char>, Seq<char>, Option<Seq<char>>, Seq<Seq<char>>, Seq<Seq<char>>),
    prev: (Seq<char>, Seq<Seq<char>>, Seq<Seq<char>>),
) -> (Seq<char>, Seq<Seq<char>>, Seq<Seq<char>>) {
    let sn = spec_server_name_from_server_id_expr(e.0);
    if has_name(prev.1, sn) {
        (
            prev.0 + fw_warning(sn) + comment_lines(lines(merged_of(e)), lines(merged_of(e)).len() as int) + "\n"@,
            prev.1,
            prev.2.push("  [WARN] upcloud_firewall_rules for '"@ + sn + "' already written by another file — merge manually"@),
        )
    } else {
        let ntags = note_tags(e.4, e.4.len() as int).len();
        (
            prev.0 + note_lines(e.4, e.4.len() as int)
                + (if e.3.len() == 0 { "# NOTE: ["@ + e.1 + "] No SG rules resolved — add firewall_rule blocks manually.\n"@ } else { seq![] })
                + merged_of(e) + "\n"@,
            prev.1.push(sn),
            if ntags > 1 { prev.2.push("  [MERGE] "@ + dec(ntags) + " security groups → upcloud_firewall_rules."@ + e.1) } else { prev.2 },
        )
    }
}

/// The state after the first `k` firewall entries.
pub open spec fn fw_out_fold(
    fw: Seq<(Seq<char>, Seq<char>, Option<Seq<char>>, Seq<Seq<char>>, Seq<Seq<char>>)>,
    st: (Seq<char>, Seq<Seq<char>>, Seq<Seq<char>>),
    k: int,
) -> (Seq<char>, Seq<Seq<char>>, Seq<Seq<char>>)
    decreases k,
{
    if k <= 0 { st } else { fw_out_step(fw[k - 1], fw_out_fold(fw, st, k - 1)) }
}

fn note_tags_count(notes: &Vec<String>) -> (r: usize)
    ensures
        r == note_tags(names_view(notes@), notes@.len() as int).len(),
{
    let ghost nv = names_view(notes@);
    let mut tags: Vec<String> = Vec::new();
    let mut i: usize = 0;
    while i < notes.len()
        invariant
            i <= notes@.len(),
            nv == names_view(notes@),
            names_view(tags@) == note_tags(nv, i as int),
        decreases notes@.len() - i,
    {
        assert(nv[i as int] == notes@[i as int]@);
        let v = chars_of(notes[i].as_str());
        if v.len() > 0 && v[0] == '[' {
            let n = v.len();
            let rest = slice_of(&v, 1, n);
            assert(rest@ =~= v@.drop_first());
            add_name_exec(&mut tags, string_of(&before_char_v(&rest, ']')));
        }
        i += 1;
    }
    assert(names_view(tags@).len() == tags@.len());
    tags.len()
}

fn push_commented(s: &mut String, t: &str)
    ensures
        final(s)@ == old(s)@ + comment_lines(lines(t@), lines(t@).len() as int),
{
    let ls = lines_v(&chars_of(t));
    let ghost lv = views(ls@);
    let ghost start = old(s)@;
    let mut i: usize = 0;
    while i < ls.len()
        invariant
            i <= ls@.len(),
            lv == views(ls@),
            lv == lines(t@),
            s@ == start + comment_lines(lv, i as int),
        decreases ls@.len() - i,
    {
        assert(lv[i as int] == ls@[i as int]@);
        push_str(s, "# ");
        push_vec(s, &ls[i]);
        push_str(s, "\n");
        i += 1;
    }
}

fn render_one_fw(
    e: &(String, String, Option<String>, Vec<String>, Vec<String>),
    content: &mut String,
    written: &mut Vec<String>,
    log: &mut Vec<String>,
)
    ensures
        (final(content)@, names_view(final(written)@), names_view(final(log)@)) == fw_out_step(
            (e.0@, e.1@, opt_view(e.2), names_view(e.3@), names_view(e.4@)),
            (old(content)@, names_view(old(written)@), names_view(old(log)@)),
        ),
{
    let ghost ev = (e.0@, e.1@, opt_view(e.2), names_view(e.3@), names_view(e.4@));
    let sn = server_name_from_server_id_expr(e.0.as_str());
    let merged = match &e.2 {
        Some(c) => build_merged_fw_hcl(e.1.as_str(), e.0.as_str(), Some(c.as_str()), e.3.as_slice()),
        None => build_merged_fw_hcl(e.1.as_str(), e.0.as_str(), None, e.3.as_slice()),
    };
    assert(names_view(e.3@) =~= crate::migration::types::strs_view(e.3@));
    assert(merged@ == merged_of(ev));
    let ghost lprev = log@;
    if contains_name(written, sn.as_str()) {
        let mut m = String::from_str("  [WARN] upcloud_firewall_rules for '");
        push_str(&mut m, sn.as_str());
        push_str(&mut m, "' already written by another file — merge manually");
        log.push(m);
        assert(names_view(log@) =~= names_view(lprev).push(m@));
        push_str(content, "# WARNING: firewall rules for server '");
        push_str(content, sn.as_str());
        push_str(content, "' were already written by another output file.\n# Merge the rules below into that resource manually (UpCloud requires exactly one\n# upcloud_firewall_rules per server).\n");
        push_commented(content, merged.as_str());
        push_str(content, "\n");
    } else {
        let ghost wprev = written@;
        written.push(string_of(&chars_of(sn.as_str())));
        assert(names_view(written@) =~= names_view(wprev).push(sn@));
        let ntags = note_tags_count(&e.4);
        if ntags > 1 {
            let mut m = String::from_str("  [MERGE] ");
            push_u64(&mut m, ntags as u64);
            push_str(&mut m, " security groups → upcloud_firewall_rules.");
            push_str(&mut m, e.1.as_str());
            log.push(m);
            assert(names_view(log@) =~= names_view(lprev).push(m@));
        }
        push_note_lines(content, &e.4);
        if e.3.len() == 0 {
            push_str(content, "# NOTE: [");
            push_str(content, e.1.as_str());
            push_str(content, "] No SG rules resolved — add firewall_rule blocks manually.\n");
        }
        push_str(content, merged.as_str());
        push_str(content, "\n");
    }
}

/// Write the merged firewalls of one file: one per server, or, for a server whose
/// firewall another file wrote, the rules commented out under a warning.
pub fn render_firewalls(
    fw: &Vec<(String, String, Option<String>, Vec<String>, Vec<String>)>,
    content: &mut String,
    written: &mut Vec<String>,
    log: &mut Vec<String>,
)
    ensures
        (final(content)@, names_view(final(written)@), names_view(final(log)@)) == fw_out_fold(
            fw_view(fw@),
            (old(content)@, names_view(old(written)@), names_view(old(log)@)),
            fw@.len() as int,
        ),
{
    let ghost st0 = (content@, names_view(written@), names_view(log@));
    let ghost fv = fw_view(fw@);
    let mut k: usize = 0;
    while k < fw.len()
        invariant
            k <= fw@.len(),
            fv == fw_view(fw@),
            (content@, names_view(written@), names_view(log@)) == fw_out_fold(fv, st0, k as int),
        decreases fw@.len() - k,
    {
        assert(fv[k as int] == (fw@[k as int].0@, fw@[k as int].1@, opt_view(fw@[k as int].2), names_view(fw@[k as int].3@), names_view(fw@[k as int].4@)));
        render_one_fw(&fw[k], content, written, log);
        k += 1;
    }
}


// ── Carried-over blocks ──────────────────────────────────────────────────────

/// `n` without every leading repetition of `pre`.
pub open spec fn strip_prefix_all(n: Seq<char>, pre: Seq<char>) -> Seq<char>
    decreases n.len(),
{
    if pre.len() > 0 && starts_with(n, pre) {
        strip_prefix_all(n.skip(pre.len() as int), pre)
    } else {
        n
    }
}

fn strip_prefix_all_exec(n: &Vec<char>, pre: &str) -> (r: Vec<char>)
    ensures
        r@ == strip_prefix_all(n@, pre@),
{
    let pv = chars_of(pre);
    let pl = pv.len();
    let mut cur = slice_of(n, 0, n.len());
    assert(cur@ =~= n@);
    while pl > 0 && starts_with_exec(&cur, pre)
        invariant
            pv@ == pre@,
            pl == pre@.len(),
            strip_prefix_all(n@, pre@) == strip_prefix_all(cur@, pre@),
        decreases cur@.len(),
    {
        let m = cur.len();
        let next = slice_of(&cur, pl, m);
        assert(next@ =~= cur@.skip(pl as int));
        cur = next;
    }
    cur
}

/// A block whose name uses the source provider's prefix (or is the bare provider name).
pub open spec fn has_provider_prefix<P: SourceProvider>(p: P, name: Option<String>) -> bool {
    match name {
        Some(n) => starts_with(n@, p.spec_prefix()) || n@ == trim_end_char(p.spec_prefix(), '_'),
        None => false,
    }
}

/// The note suggesting to rename such a block.
pub open spec fn rename_note<P: SourceProvider>(p: P, name: Option<String>) -> Seq<char> {
    if has_provider_prefix(p, name) {
        let nm = match name { Some(n) => n@, None => seq![] };
        "# NOTE: Variable name '"@ + nm + "' references "@ + p.spec_display_name() + " — consider renaming (e.g. \""@
            + strip_prefix_all(nm, p.spec_prefix()) + "\").\n"@
    } else {
        seq![]
    }
}

/// The attributes a variable is assigned to in the sources.
pub open spec fn usage_of(um: Seq<(Seq<char>, Seq<Seq<char>>)>, name: Seq<char>) -> Seq<Seq<char>> {
    match crate::migration::var_detector::key_index(um, name, um.len() as int) {
        Some(i) => um[i].1,
        None => seq![],
    }
}

/// A variable block with its default converted when the detector recognizes it (a
/// region becomes the chosen zone), behind an annotation; else as written.
pub open spec fn var_hcl<D: VarDetector>(d: D, raw: Seq<char>, name: Seq<char>, zone: Seq<char>, um: Seq<(Seq<char>, Seq<Seq<char>>)>) -> Seq<char> {
    let info = spec_variable_info(raw);
    match spec_best(d.spec_detect(name, info.0, info.1, usage_of(um, name))) {
        Some(c) => {
            let c2 = if c.kind == VarKind::Region && c.converted_value is Some {
                VarConversionModel { converted_value: Some(zone), ..c }
            } else {
                c
            };
            spec_var_annotation(name, c2) + spec_apply_conversion(raw, c2)
        },
        None => raw,
    }
}

/// The HCL of a carried-over block: outputs, locals and data sources with the provider's
/// references rewritten (leftover interpolated TODOs unwrapped), variables converted.
pub open spec fn pt_hcl<P: SourceProvider, D: VarDetector>(p: P, d: D, pt: PassthroughBlock, zone: Seq<char>, um: Seq<(Seq<char>, Seq<Seq<char>>)>) -> Seq<char> {
    if pt.kind == PassthroughKind::Output || pt.kind == PassthroughKind::Locals || pt.kind == PassthroughKind::Data {
        spec_remove_todo_interpolations(p.spec_rewrite(pt.raw_hcl@))
    } else if pt.kind == PassthroughKind::Variable {
        var_hcl(d, pt.raw_hcl@, match pt.name { Some(n) => n@, None => seq![] }, zone, um)
    } else {
        pt.raw_hcl@
    }
}

/// The text of the carried-over blocks (but providers) of file `f` among the first `n`.
pub open spec fn pt_fold<P: SourceProvider, D: VarDetector>(p: P, d: D, pts: Seq<PassthroughBlock>, f: Seq<char>, zone: Seq<char>, um: Seq<(Seq<char>, Seq<Seq<char>>)>, n: int) -> Seq<char>
    decreases n,
{
    if n <= 0 {
        seq![]
    } else {
        let pt = pts[n - 1];
        pt_fold(p, d, pts, f, zone, um, n - 1) + if pt_file(pt) == f && pt.kind != PassthroughKind::Provider {
            rename_note(p, pt.name) + pt_hcl(p, d, pt, zone, um) + "\n\n"@
        } else {
            seq![]
        }
    }
}

/// The rewrites of carried-over outputs, locals and data sources are defined.
pub open spec fn rewrite_ok_pts<P: SourceProvider>(p: P, pts: Seq<PassthroughBlock>) -> bool {
    forall|i: int| 0 <= i < pts.len() ==> ((#[trigger] pts[i]).kind == PassthroughKind::Output || pts[i].kind == PassthroughKind::Locals || pts[i].kind == PassthroughKind::Data) ==> p.spec_rewrite_ok(pts[i].raw_hcl@)
}

fn var_hcl_exec<D: VarDetector>(detector: &D, raw: &str, name: &str, zone: &str, um: &VarUsageMap) -> (r: String)
    requires
        um.wf(),
    ensures
        r@ == var_hcl(*detector, raw@, name@, zone@, um@),
{
    let info = extract_variable_info(raw);
    let usage: Vec<String> = match um.get(name) {
        Some(a) => a,
        None => Vec::new(),
    };
    assert(crate::migration::types::strs_view(usage@) == usage_of(um@, name@));
    let dv: Option<&str> = match &info.0 { Some(s) => Some(s.as_str()), None => None };
    let ds: Option<&str> = match &info.1 { Some(s) => Some(s.as_str()), None => None };
    assert(crate::migration::var_detector::opt_str_view(dv) == spec_variable_info(raw@).0);
    assert(crate::migration::var_detector::opt_str_view(ds) == spec_variable_info(raw@).1);
    match analyze_variable_with(detector, name, dv, ds, usage.as_slice()) {
        Some(conv) => {
            let mut c = conv;
            if c.kind == VarKind::Region && c.converted_value.is_some() {
                c.converted_value = Some(string_of(&chars_of(zone)));
            }
            let mut out = build_var_annotation(name, &c);
            let body = apply_conversion_to_hcl(raw, &c);
            push_str(&mut out, body.as_str());
            out
        },
        None => string_of(&chars_of(raw)),
    }
}

fn pt_hcl_exec<P: SourceProvider, D: VarDetector>(pt: &PassthroughBlock, zone: &str, provider: &P, detector: &D, um: &VarUsageMap) -> (r: String)
    requires
        um.wf(),
        (pt.kind == PassthroughKind::Output || pt.kind == PassthroughKind::Locals || pt.kind == PassthroughKind::Data) ==> provider.spec_rewrite_ok(pt.raw_hcl@),
    ensures
        r@ == pt_hcl(*provider, *detector, *pt, zone@, um@),
{
    if pt.kind == PassthroughKind::Output || pt.kind == PassthroughKind::Locals || pt.kind == PassthroughKind::Data {
        remove_todo_interpolations(provider.rewrite_output_refs(pt.raw_hcl.as_str()))
    } else if pt.kind == PassthroughKind::Variable {
        proof {
            reveal_strlit("");
        }
        let vname: &str = match &pt.name { Some(n) => n.as_str(), None => "" };
        assert(vname@ == match pt.name { Some(n) => n@, None => Seq::<char>::empty() }) by {
            if pt.name is None {
                assert(""@.len() == 0);
                assert(""@ =~= Seq::<char>::empty());
            }
        }
        var_hcl_exec(detector, pt.raw_hcl.as_str(), vname, zone, um)
    } else {
        string_of(&chars_of(pt.raw_hcl.as_str()))
    }
}

fn push_rename_note<P: SourceProvider>(content: &mut String, name: &Option<String>, provider: &P)
    ensures
        final(content)@ == old(content)@ + rename_note(*provider, *name),
{
    let prefix = provider.resource_type_prefix();
    let has = match name {
        Some(n) => {
            let nv = chars_of(n.as_str());
            starts_with_exec(&nv, prefix) || seq_eq(&nv, &trim_end_char_v(&chars_of(prefix), '_'))
        },
        None => false,
    };
    if has {
        let nm: Vec<char> = match name { Some(n) => chars_of(n.as_str()), None => Vec::new() };
        push_str(content, "# NOTE: Variable name '");
        push_vec(content, &nm);
        push_str(content, "' references ");
        push_str(content, provider.display_name());
        push_str(content, " — consider renaming (e.g. \"");
        push_vec(content, &strip_prefix_all_exec(&nm, prefix));
        push_str(content, "\").\n");
    }
}

/// Render the carried-over blocks of output file `f` (provider blocks go to
/// `providers.tf`), each followed by a blank line.
pub fn render_passthroughs<P: SourceProvider, D: VarDetector>(
    passthroughs: &[PassthroughBlock],
    f: &str,
    zone: &str,
    provider: &P,
    detector: &D,
    um: &VarUsageMap,
    content: &mut String,
)
    requires
        um.wf(),
        rewrite_ok_pts(*provider, passthroughs@),
    ensures
        final(content)@ == old(content)@ + pt_fold(*provider, *detector, passthroughs@, f@, zone@, um@, passthroughs@.len() as int),
{
    let ghost start = old(content)@;
    let mut i: usize = 0;
    while i < passthroughs.len()
        invariant
            i <= passthroughs@.len(),
            um.wf(),
            rewrite_ok_pts(*provider, passthroughs@),
            content@ == start + pt_fold(*provider, *detector, passthroughs@, f@, zone@, um@, i as int),
        decreases passthroughs@.len() - i,
    {
        let pt = &passthroughs[i];
        let pf = basename_or_exec(pt.source_file.as_str(), "variables.tf");
        if eq_str(&chars_of(pf.as_str()), f) && pt.kind != PassthroughKind::Provider {
            assert((passthroughs@[i as int].kind == PassthroughKind::Output || passthroughs@[i as int].kind == PassthroughKind::Locals || passthroughs@[i as int].kind == PassthroughKind::Data) ==> provider.spec_rewrite_ok(passthroughs@[i as int].raw_hcl@));
            push_rename_note(content, &pt.name, provider);
            let hcl = pt_hcl_exec(pt, zone, provider, detector, um);
            push_str(content, hcl.as_str());
            push_str(content, "\n\n");
        }
        i += 1;
    }
}

// ── Storage devices, cleanup ─────────────────────────────────────────────────

/// The first `n` texts, concatenated.
pub open spec fn concat_all(v: Seq<Seq<char>>, n: int) -> Seq<char>
    decreases n,
{
    if n <= 0 { seq![] } else { concat_all(v, n - 1) + v[n - 1] }
}

/// The sentinel that the compute mapper leaves inside a server block.
pub open spec fn storage_sentinel(srv: Seq<char>) -> Seq<char> {
    "  # __STORAGE_END_"@ + srv + "__\n"@
}

/// The content and log after injecting the `storage_devices` blocks of the first `k`
/// servers in place of their sentinels.
pub open spec fn inject_fold(c: Seq<char>, log: Seq<Seq<char>>, sim: Seq<(Seq<char>, Seq<Seq<char>>)>, k: int) -> (Seq<char>, Seq<Seq<char>>)
    decreases k,
{
    if k <= 0 {
        (c, log)
    } else {
        let prev = inject_fold(c, log, sim, k - 1);
        let s = storage_sentinel(sim[k - 1].0);
        if contains(prev.0, s) {
            (replace(prev.0, s, concat_all(sim[k - 1].1, sim[k - 1].1.len() as int)),
                prev.1.push("  [INJECT] storage_devices → upcloud_server."@ + sim[k - 1].0))
        } else {
            prev
        }
    }
}

/// The header of a storage resource.
pub open spec fn storage_header(st: Seq<char>) -> Seq<char> {
    "resource \"upcloud_storage\" \""@ + st + "\" {"@
}

/// A storage's title before and after it takes the instance number.
pub open spec fn old_title(st: Seq<char>) -> Seq<char> {
    "title = \""@ + st + "\""@
}

pub open spec fn new_title(st: Seq<char>) -> Seq<char> {
    "title = \""@ + st + "_${count.index + 1}\""@
}

/// `count = cv` inserted after position `at`, and the title numbered.
pub open spec fn with_count(c: Seq<char>, at: int, st: Seq<char>, cv: Seq<char>) -> Seq<char> {
    replace(c.take(at) + "\n  count = "@ + cv + c.skip(at), old_title(st), new_title(st))
}

/// One storage's count promoted in the content (and in its resolved HCL).
pub open spec fn promote_step(st: (Seq<char>, Seq<((Seq<char>, Seq<char>), Seq<char>)>, Seq<Seq<char>>), name: Seq<char>, cv: Seq<char>, vtype: Seq<char>) -> (Seq<char>, Seq<((Seq<char>, Seq<char>), Seq<char>)>, Seq<Seq<char>>) {
    let h = storage_header(name);
    match find(st.0, h) {
        None => st,
        Some(pos) => {
            let c2 = with_count(st.0, pos + h.len(), name, cv);
            let c3 = replace_first(c2, h, "# NOTE: One storage device per server instance (count = "@ + cv + ")\n"@ + h);
            let res = match rkey_index(st.1, (vtype, name), 0) {
                Some(i) => match find(st.1[i].1, "{"@) {
                    Some(bp) => rput(st.1, (vtype, name), with_count(st.1[i].1, bp + 1, name, cv)),
                    None => st.1,
                },
                None => st.1,
            };
            (c3, res, st.2.push("  [PROMOTE] count = "@ + cv + " → upcloud_storage."@ + name + " (one per server instance)"@))
        },
    }
}

pub open spec fn promote_fold(st: (Seq<char>, Seq<((Seq<char>, Seq<char>), Seq<char>)>, Seq<Seq<char>>), spc: Seq<(Seq<char>, Seq<char>)>, vtype: Seq<char>, k: int) -> (Seq<char>, Seq<((Seq<char>, Seq<char>), Seq<char>)>, Seq<Seq<char>>)
    decreases k,
{
    if k <= 0 { st } else { promote_step(promote_fold(st, spc, vtype, k - 1), spc[k - 1].0, spc[k - 1].1, vtype) }
}

/// The first `n` lines, without the leftover storage sentinels, each ended by a newline.
pub open spec fn clean_lines(ls: Seq<Seq<char>>, n: int) -> Seq<char>
    decreases n,
{
    if n <= 0 {
        seq![]
    } else {
        clean_lines(ls, n - 1) + if starts_with(trim_start(ls[n - 1]), "# __STORAGE_END_"@) { seq![] } else { ls[n - 1] + "\n"@ }
    }
}

/// The synthesized SSH public key variable.
pub open spec fn ssh_var_block() -> Seq<char> {
    "variable \"ssh_public_key\" {\n  description = \"SSH public key for server access (replaces source key_name)\"\n  type        = string\n}\n\n"@
}

fn inject_storage(content: &mut String, log: &mut Vec<String>, xref: &CrossRefTables)
    ensures
        (final(content)@, names_view(final(log)@)) == inject_fold(old(content)@, names_view(old(log)@), xref@.storage_inject_map, xref@.storage_inject_map.len() as int),
{
    let ghost c0 = content@;
    let ghost l0 = names_view(log@);
    let m = &xref.storage_inject_map;
    let ghost mv = xref@.storage_inject_map;
    let mut k: usize = 0;
    while k < m.len()
        invariant
            k <= m@.len(),
            mv == xref@.storage_inject_map,
            mv == crate::migration::cross_ref::groups_view(m@),
            mv.len() == m@.len(),
            (content@, names_view(log@)) == inject_fold(c0, l0, mv, k as int),
        decreases m@.len() - k,
    {
        assert(mv[k as int] == (m@[k as int].0@, names_view(m@[k as int].1@)));
        let s = cat3("  # __STORAGE_END_", m[k].0.as_str(), "__\n");
        let cv = chars_of(content.as_str());
        let sv = chars_of(s.as_str());
        if crate::text::contains_vec(&cv, &sv) {
            let mut inj = String::new();
            let blocks = &m[k].1;
            let ghost bv = names_view(blocks@);
            let mut j: usize = 0;
            while j < blocks.len()
                invariant
                    j <= blocks@.len(),
                    bv == names_view(blocks@),
                    inj@ == concat_all(bv, j as int),
                decreases blocks@.len() - j,
            {
                assert(bv[j as int] == blocks@[j as int]@);
                push_str(&mut inj, blocks[j].as_str());
                j += 1;
            }
            proof {
                reveal_strlit("  # __STORAGE_END_");
            }
            *content = string_of(&replace_v(&cv, &sv, &chars_of(inj.as_str())));
            let mut l = String::from_str("  [INJECT] storage_devices → upcloud_server.");
            push_str(&mut l, m[k].0.as_str());
            let ghost lp = log@;
            log.push(l);
            assert(names_view(log@) =~= names_view(lp).push(l@));
        }
        k += 1;
    }
}

fn with_count_exec(c: &Vec<char>, at: usize, name: &str, cv: &str) -> (r: Vec<char>)
    requires
        at <= c@.len(),
    ensures
        r@ == with_count(c@, at as int, name@, cv@),
{
    let n = c.len();
    let a = slice_of(c, 0, at);
    let b = slice_of(c, at, n);
    let mut s = string_of(&a);
    push_str(&mut s, "\n  count = ");
    push_str(&mut s, cv);
    push_vec(&mut s, &b);
    proof {
        reveal_strlit("\n  count = ");
    }
    let ot = cat3("title = \"", name, "\"");
    let nt = cat3("title = \"", name, "_${count.index + 1}\"");
    proof {
        reveal_strlit("title = \"");
    }
    let w = chars_of(s.as_str());
    assert(w@ =~= c@.take(at as int) + "\n  count = "@ + cv@ + c@.skip(at as int));
    replace_v(&w, &chars_of(ot.as_str()), &chars_of(nt.as_str()))
}

fn promote_storage<P: SourceProvider>(
    content: &mut String,
    resolved: &mut Vec<((String, String), String)>,
    log: &mut Vec<String>,
    xref: &CrossRefTables,
    provider: &P,
)
    ensures
        (final(content)@, resolved_view(final(resolved)@), names_view(final(log)@)) == promote_fold(
            (old(content)@, resolved_view(old(resolved)@), names_view(old(log)@)),
            xref@.storage_promote_count,
            provider.spec_volume_type(),
            xref@.storage_promote_count.len() as int,
        ),
{
    let ghost st0 = (content@, resolved_view(resolved@), names_view(log@));
    let m = &xref.storage_promote_count;
    let ghost mv = xref@.storage_promote_count;
    let vt = provider.volume_resource_type();
    let mut k: usize = 0;
    while k < m.len()
        invariant
            k <= m@.len(),
            mv == xref@.storage_promote_count,
            mv == crate::migration::cross_ref::pairs_view(m@),
            vt@ == provider.spec_volume_type(),
            (content@, resolved_view(resolved@), names_view(log@)) == promote_fold(st0, mv, provider.spec_volume_type(), k as int),
        decreases m@.len() - k,
    {
        assert(mv[k as int] == (m@[k as int].0@, m@[k as int].1@));
        let name = m[k].0.as_str();
        let cv = m[k].1.as_str();
        let h = cat3("resource \"upcloud_storage\" \"", name, "\" {");
        let c = chars_of(content.as_str());
        let hv = chars_of(h.as_str());
        match find_exec(&c, &hv) {
            None => {},
            Some(pos) => {
                proof {
                    lemma_find_from_bounds(c@, hv@, 0);
                    assert(matches_at(c@, hv@, pos as int));
                }
                let _cn = c.len();
                assert(pos + hv@.len() <= c@.len());
                let c2 = with_count_exec(&c, pos + hv.len(), name, cv);
                let mut nh = cat3("# NOTE: One storage device per server instance (count = ", cv, ")\n");
                push_str(&mut nh, h.as_str());
                let c3 = replace_first_v(&c2, &hv, &chars_of(nh.as_str()));
                *content = string_of(&c3);
                match rfind(resolved, vt, name) {
                    Some(i) => {
                        let ev = chars_of(resolved[i].1.as_str());
                        match find_str(&ev, "{") {
                            Some(bp) => {
                                proof {
                                    lemma_find_from_bounds(ev@, "{"@, 0);
                                    assert(matches_at(ev@, "{"@, bp as int));
                                    reveal_strlit("{");
                                }
                                let _en = ev.len();
                                assert(bp + 1 <= ev@.len());
                                let upd = with_count_exec(&ev, bp + 1, name, cv);
                                rput_exec(resolved, String::from_str(vt), String::from_str(name), string_of(&upd));
                            },
                            None => {},
                        }
                    },
                    None => {},
                }
                let mut l = cat3("  [PROMOTE] count = ", cv, " → upcloud_storage.");
                push_str(&mut l, name);
                push_str(&mut l, " (one per server instance)");
                let ghost lp = log@;
                log.push(l);
                assert(names_view(log@) =~= names_view(lp).push(l@));
            },
        }
        k += 1;
    }
}

fn clean_content(content: &String) -> (r: String)
    ensures
        r@ == clean_lines(lines(content@), lines(content@).len() as int),
{
    let ls = lines_v(&chars_of(content.as_str()));
    let ghost lv = lines(content@);
    let mut out = String::new();
    let mut i: usize = 0;
    while i < ls.len()
        invariant
            i <= ls@.len(),
            views(ls@) == lv,
            out@ == clean_lines(lv, i as int),
        decreases ls@.len() - i,
    {
        assert(lv[i as int] == ls@[i as int]@);
        let t = trim_start_v(&ls[i]);
        if !starts_with_exec(&t, "# __STORAGE_END_") {
            push_vec(&mut out, &ls[i]);
            push_str(&mut out, "\n");
        }
        i += 1;
    }
    out
}

/// The header comment of an output file.
pub open spec fn file_header(display: Seq<char>, f: Seq<char>, zone: Seq<char>) -> Seq<char> {
    "# Migrated from "@ + display + " Terraform\n# Source: "@ + f + "\n# Target zone: "@ + zone + "\n\n"@
}

/// Output file `f`: its content, the servers whose firewall has been written, the
/// resolved HCL by resource, the log lines of its rendering, and the parser's error
/// for content without `<TODO` placeholders. `ssh` says whether the synthesized
/// `ssh_public_key` variable goes in this file.
pub open spec fn spec_render_file<P: SourceProvider, D: VarDetector>(
    p: P,
    d: D,
    rs: Seq<MigrationResult>,
    pts: Seq<PassthroughBlock>,
    f: Seq<char>,
    zone: Seq<char>,
    region: Seq<char>,
    x: XrefModel,
    um: Seq<(Seq<char>, Seq<Seq<char>>)>,
    ssh: bool,
    written: Seq<Seq<char>>,
    resolved: Seq<((Seq<char>, Seq<char>), Seq<char>)>,
) -> (Seq<char>, Seq<Seq<char>>, Seq<((Seq<char>, Seq<char>), Seq<char>)>, Seq<Seq<char>>, Option<Seq<char>>) {
    let s1 = render_results(p, rs, f, zone, region, x, (file_header(p.spec_display_name(), f, zone), seq![], resolved, seq![]), rs.len() as int);
    let s2 = fw_out_fold(s1.1, (s1.0, written, s1.3), s1.1.len() as int);
    let c3 = s2.0 + pt_fold(p, d, pts, f, zone, um, pts.len() as int);
    let c4 = if ssh { c3 + ssh_var_block() } else { c3 };
    let l4 = if ssh { s2.2.push("  [SYNTH] variable \"ssh_public_key\" added to variables.tf"@) } else { s2.2 };
    let inj = inject_fold(c4, l4, x.storage_inject_map, x.storage_inject_map.len() as int);
    let pr = promote_fold((inj.0, s1.2, inj.1), x.storage_promote_count, p.spec_volume_type(), x.storage_promote_count.len() as int);
    let c = clean_lines(lines(pr.0), lines(pr.0).len() as int);
    (c, s2.1, pr.1, pr.2, if contains(c, "<TODO"@) { None } else { hcl_parse_error(c) })
}

/// Render output file `f`: the header, the results written to it (firewalls merged per
/// server across files through `written`), its carried-over blocks, the synthesized
/// SSH key variable when `ssh`, the attached storage devices injected, storage counts
/// promoted and leftover sentinels removed. Returns the content, the log lines, and the
/// HCL parser's error for content that holds no `<TODO` placeholder.
pub fn render_file<P: SourceProvider, D: VarDetector>(
    results: &[MigrationResult],
    passthroughs: &[PassthroughBlock],
    f: &str,
    zone: &str,
    objstorage_region: &str,
    xref: &CrossRefTables,
    provider: &P,
    detector: &D,
    um: &VarUsageMap,
    ssh: bool,
    written: &mut Vec<String>,
    resolved: &mut Vec<((String, String), String)>,
) -> (r: (String, Vec<String>, Option<String>))
    requires
        um.wf(),
        rewrite_ok_results(*provider, results@),
        rewrite_ok_pts(*provider, passthroughs@),
    ensures
        (r.0@, names_view(final(written)@), resolved_view(final(resolved)@), names_view(r.1@), opt_view(r.2)) == spec_render_file(
            *provider, *detector, results@, passthroughs@, f@, zone@, objstorage_region@, xref@, um@, ssh,
            names_view(old(written)@), resolved_view(old(resolved)@),
        ),
{
    let mut content = String::from_str("# Migrated from ");
    push_str(&mut content, provider.display_name());
    push_str(&mut content, " Terraform\n# Source: ");
    push_str(&mut content, f);
    push_str(&mut content, "\n# Target zone: ");
    push_str(&mut content, zone);
    push_str(&mut content, "\n\n");
    let mut fw: Vec<(String, String, Option<String>, Vec<String>, Vec<String>)> = Vec::new();
    let mut log: Vec<String> = Vec::new();
    proof {
        assert(fw_view(fw@) =~= seq![]);
        assert(names_view(log@) =~= seq![]);
    }
    render_resources(results, f, zone, objstorage_region, xref, provider, &mut content, &mut fw, resolved, &mut log);
    render_firewalls(&fw, &mut content, written, &mut log);
    render_passthroughs(passthroughs, f, zone, provider, detector, um, &mut content);
    if ssh {
        push_str(&mut content, "variable \"ssh_public_key\" {\n  description = \"SSH public key for server access (replaces source key_name)\"\n  type        = string\n}\n\n");
        let ghost lp = log@;
        log.push(String::from_str("  [SYNTH] variable \"ssh_public_key\" added to variables.tf"));
        assert(names_view(log@) =~= names_view(lp).push("  [SYNTH] variable \"ssh_public_key\" added to variables.tf"@));
    }
    inject_storage(&mut content, &mut log, xref);
    promote_storage(&mut content, resolved, &mut log, xref, provider);
    let cleaned = clean_content(&content);
    let cv = chars_of(cleaned.as_str());
    let err = if contains_str(&cv, "<TODO") { None } else { hcl_body_error(cleaned.as_str()) };
    (cleaned, log, err)
}

// ── All outputs ──────────────────────────────────────────────────────────────

/// One generated `.tf` file: its name, content, the log lines of its rendering, and the
/// HCL parser's error on it (checked only when it holds no `<TODO` placeholder).
pub struct OutputFile {
    pub name: String,
    pub content: String,
    pub log: Vec<String>,
    pub hcl_error: Option<String>,
}

/// Everything a migration writes: `providers.tf`, the `.tf` files in order, the
/// `MIGRATION_NOTES.md` content with its partial and unsupported counts, and the
/// resolved HCL of each resource by (source type, name).
pub struct GeneratedOutput {
    pub providers_tf: String,
    pub files: Vec<OutputFile>,
    pub notes: Option<(String, usize, usize)>,
    pub resolved: Vec<((String, String), String)>,
}

pub open spec fn files_view(v: Seq<OutputFile>) -> Seq<(Seq<char>, Seq<char>, Seq<Seq<char>>, Option<Seq<char>>)> {
    v.map_values(|o: OutputFile| (o.name@, o.content@, names_view(o.log@), opt_view(o.hcl_error)))
}

pub open spec fn notes_view(n: Option<(String, usize, usize)>) -> Option<(Seq<char>, nat, nat)> {
    match n {
        Some(t) => Some((t.0@, t.1 as nat, t.2 as nat)),
        None => None,
    }
}

/// The source HCL of the first `n` results that have it.
pub open spec fn source_blocks(rs: Seq<MigrationResult>, n: int) -> Seq<Seq<char>>
    decreases n,
{
    if n <= 0 {
        seq![]
    } else {
        match rs[n - 1].source_hcl {
            Some(s) => source_blocks(rs, n - 1).push(s@),
            None => source_blocks(rs, n - 1),
        }
    }
}

/// The variable usage of the results' source HCL.
pub open spec fn results_usage(rs: Seq<MigrationResult>) -> Seq<(Seq<char>, Seq<Seq<char>>)> {
    group_pairs(seq![], blocks_usage(source_blocks(rs, rs.len() as int)))
}

/// The first `k` output files rendered in order, with the servers whose firewall has
/// been written and the resolved HCL so far.
pub open spec fn files_fold<P: SourceProvider, D: VarDetector>(
    p: P,
    d: D,
    rs: Seq<MigrationResult>,
    pts: Seq<PassthroughBlock>,
    names: Seq<Seq<char>>,
    zone: Seq<char>,
    region: Seq<char>,
    k: int,
) -> (Seq<(Seq<char>, Seq<char>, Seq<Seq<char>>, Option<Seq<char>>)>, Seq<Seq<char>>, Seq<((Seq<char>, Seq<char>), Seq<char>)>)
    decreases k,
{
    if k <= 0 {
        (seq![], seq![], seq![])
    } else {
        let prev = files_fold(p, d, rs, pts, names, zone, region, k - 1);
        let f = names[k - 1];
        let ssh = needs_ssh_var(rs, pts) && f == ssh_var_file(rs, pts);
        let o = spec_render_file(p, d, rs, pts, f, zone, region, spec_cross_ref(p, rs), results_usage(rs), ssh, prev.1, prev.2);
        (prev.0.push((f, o.0, o.3, o.4)), o.1, o.2)
    }
}

/// The outputs of a migration whose source provider is `p`.
pub open spec fn spec_generate<P: SourceProvider, D: VarDetector>(
    p: P,
    d: D,
    rs: Seq<MigrationResult>,
    pts: Seq<PassthroughBlock>,
    zone: Seq<char>,
    region: Seq<char>,
) -> (Seq<char>, Seq<(Seq<char>, Seq<char>, Seq<Seq<char>>, Option<Seq<char>>)>, Option<(Seq<char>, nat, nat)>, Seq<((Seq<char>, Seq<char>), Seq<char>)>) {
    let names = output_files(rs, pts);
    let ff = files_fold(p, d, rs, pts, names, zone, region, names.len() as int);
    (spec_providers_tf(pts), ff.0, spec_migration_notes(p, rs, zone, region), ff.2)
}

pub open spec fn output_view(o: GeneratedOutput) -> (Seq<char>, Seq<(Seq<char>, Seq<char>, Seq<Seq<char>>, Option<Seq<char>>)>, Option<(Seq<char>, nat, nat)>, Seq<((Seq<char>, Seq<char>), Seq<char>)>) {
    (o.providers_tf@, files_view(o.files@), notes_view(o.notes), resolved_view(o.resolved@))
}

/// Generate every output of a migration whose source provider is `provider`, with
/// `detector` reading its variables.
pub fn generate_with<P: SourceProvider, D: VarDetector>(
    results: &[MigrationResult],
    passthroughs: &[PassthroughBlock],
    zone: &str,
    objstorage_region: &str,
    provider: &P,
    detector: &D,
) -> (r: GeneratedOutput)
    requires
        rewrite_ok_results(*provider, results@),
        rewrite_ok_pts(*provider, passthroughs@),
    ensures
        output_view(r) == spec_generate(*provider, *detector, results@, passthroughs@, zone@, objstorage_region@),
{
    let xref = build_cross_ref_tables(results, provider);
    let mut blocks: Vec<&str> = Vec::new();
    let mut i: usize = 0;
    while i < results.len()
        invariant
            i <= results@.len(),
            blocks@.map_values(|b: &str| b@) == source_blocks(results@, i as int),
        decreases results@.len() - i,
    {
        let ghost bp = blocks@;
        if let Some(s) = &results[i].source_hcl {
            blocks.push(s.as_str());
            assert(blocks@.map_values(|b: &str| b@) =~= bp.map_values(|b: &str| b@).push(s@));
        }
        i += 1;
    }
    let um = build_var_usage_map(blocks.as_slice());
    let (names, sshf) = output_file_names(results, passthroughs);
    let needs = needs_ssh_exec(results, passthroughs);
    let sshv = chars_of(sshf.as_str());
    let ghost nv = names_view(names@);
    let mut files: Vec<OutputFile> = Vec::new();
    let mut written: Vec<String> = Vec::new();
    let mut resolved: Vec<((String, String), String)> = Vec::new();
    let mut k: usize = 0;
    proof {
        assert(files_view(files@) =~= seq![]);
        assert(names_view(written@) =~= seq![]);
        assert(resolved_view(resolved@) =~= seq![]);
    }
    while k < names.len()
        invariant
            k <= names@.len(),
            files@.len() == k,
            nv == names_view(names@),
            nv == output_files(results@, passthroughs@),
            um.wf(),
            um@ == results_usage(results@),
            xref@ == spec_cross_ref(*provider, results@),
            needs == needs_ssh_var(results@, passthroughs@),
            sshv@ == ssh_var_file(results@, passthroughs@),
            rewrite_ok_results(*provider, results@),
            rewrite_ok_pts(*provider, passthroughs@),
            (files_view(files@), names_view(written@), resolved_view(resolved@)) == files_fold(*provider, *detector, results@, passthroughs@, nv, zone@, objstorage_region@, k as int),
        decreases names@.len() - k,
    {
        assert(nv[k as int] == names@[k as int]@);
        let f = names[k].as_str();
        let ssh = needs && seq_eq(&chars_of(f), &sshv);
        let (content, log, hcl_error) = render_file(results, passthroughs, f, zone, objstorage_region, &xref, provider, detector, &um, ssh, &mut written, &mut resolved);
        let ghost fp = files@;
        files.push(OutputFile { name: String::from_str(f), content, log, hcl_error });
        assert(files_view(files@) =~= files_view(fp).push((f@, files@[k as int].content@, names_view(files@[k as int].log@), opt_view(files@[k as int].hcl_error))));
        k += 1;
    }
    GeneratedOutput {
        providers_tf: providers_tf(passthroughs),
        files,
        notes: migration_notes(results, zone, objstorage_region, provider),
        resolved,
    }
}

/// The source provider's rewriting of references ends on every block it is applied to.
pub open spec fn generation_ok(rs: Seq<MigrationResult>, pts: Seq<PassthroughBlock>) -> bool {
    match spec_detect_provider(rs) {
        DetectedProvider::Aws => rewrite_ok_results(AwsSourceProvider, rs) && rewrite_ok_pts(AwsSourceProvider, pts),
        DetectedProvider::Azure => rewrite_ok_results(AzureSourceProvider, rs) && rewrite_ok_pts(AzureSourceProvider, pts),
    }
}

/// The outputs of a migration, for the source provider its results come from.
pub open spec fn spec_generate_outputs(rs: Seq<MigrationResult>, pts: Seq<PassthroughBlock>, zone: Seq<char>, region: Seq<char>) -> (Seq<char>, Seq<(Seq<char>, Seq<char>, Seq<Seq<char>>, Option<Seq<char>>)>, Option<(Seq<char>, nat, nat)>, Seq<((Seq<char>, Seq<char>), Seq<char>)>) {
    match spec_detect_provider(rs) {
        DetectedProvider::Aws => spec_generate(AwsSourceProvider, AwsVarDetector, rs, pts, zone, region),
        DetectedProvider::Azure => spec_generate(AzureSourceProvider, AzureVarDetector, rs, pts, zone, region),
    }
}

/// Generate every output of a migration: `providers.tf`, one `.tf` file per source
/// file, and the migration notes, with the source provider detected from the results.
pub fn generate_outputs(results: &[MigrationResult], passthroughs: &[PassthroughBlock], zone: &str, objstorage_region: &str) -> (r: GeneratedOutput)
    requires
        generation_ok(results@, passthroughs@),
    ensures
        output_view(r) == spec_generate_outputs(results@, passthroughs@, zone@, objstorage_region@),
{
    match detect_provider(results) {
        DetectedProvider::Aws => generate_with(results, passthroughs, zone, objstorage_region, &AwsSourceProvider, &AwsVarDetector),
        DetectedProvider::Azure => generate_with(results, passthroughs, zone, objstorage_region, &AzureSourceProvider, &AzureVarDetector),
    }
}

// ── Laws ─────────────────────────────────────────────────────────────────────

/// `providers.tf` always requires the UpCloud provider, declares the API token variable
/// and configures the UpCloud provider with it, whatever the other providers are.
pub proof fn providers_tf_declares_upcloud(pts: Seq<PassthroughBlock>)
    ensures
        starts_with(spec_providers_tf(pts), providers_head()),
        contains(spec_providers_tf(pts), providers_mid()),
{
    let s = spec_providers_tf(pts);
    let i: int = (providers_head().len() + required_lines(pts, pts.len() as int).len()) as int;
    assert(s.subrange(0, providers_head().len() as int) =~= providers_head());
    assert(s.subrange(i, i + providers_mid().len() as int) =~= providers_mid());
    assert(matches_at(s, providers_mid(), i));
    lemma_find_from_bounds(s, providers_mid(), 0);
}

proof fn lemma_partial_count_zero<P: SourceProvider>(p: P, rs: Seq<MigrationResult>, n: int)
    requires
        0 <= n <= rs.len(),
    ensures
        partial_sections(p, rs, n).1 == 0 <==> forall|i: int| 0 <= i < n ==> !is_partial_note(p, #[trigger] rs[i]),
    decreases n,
{
    if n > 0 {
        lemma_partial_count_zero(p, rs, n - 1);
    }
}

proof fn lemma_unsupported_count_zero(rs: Seq<MigrationResult>, n: int)
    requires
        0 <= n <= rs.len(),
    ensures
        unsupported_entries(rs, n).1 == 0 <==> forall|i: int| 0 <= i < n ==> !is_unsupported_note(#[trigger] rs[i]),
    decreases n,
{
    if n > 0 {
        lemma_unsupported_count_zero(rs, n - 1);
    }
}

/// `MIGRATION_NOTES.md` is written exactly when some result needs manual action: a
/// partial resource with a snippet or notes (other than a volume attachment injected
/// into its server), or an unsupported or unknown one. In particular results that are
/// all carried over as they are give no notes.
pub proof fn migration_notes_only_for_manual_work<P: SourceProvider>(p: P, rs: Seq<MigrationResult>, zone: Seq<char>, region: Seq<char>)
    ensures
        spec_migration_notes(p, rs, zone, region) is None <==> forall|i: int| 0 <= i < rs.len() ==> !is_partial_note(p, #[trigger] rs[i]) && !is_unsupported_note(rs[i]),
        (forall|i: int| 0 <= i < rs.len() ==> #[trigger] rs[i].status == MigrationStatus::Passthrough) ==> spec_migration_notes(p, rs, zone, region) is None,
{
    lemma_partial_count_zero(p, rs, rs.len() as int);
    lemma_unsupported_count_zero(rs, rs.len() as int);
    if forall|i: int| 0 <= i < rs.len() ==> #[trigger] rs[i].status == MigrationStatus::Passthrough {
        assert forall|i: int| 0 <= i < rs.len() implies !is_partial_note(p, #[trigger] rs[i]) && !is_unsupported_note(rs[i]) by {
            assert(rs[i].status == MigrationStatus::Passthrough);
        }
    }
}

/// Firewalls are written once per server: after the entries of `fw`, starting from a
/// list of servers without repeats, the servers whose merged firewall was written hold
/// no server twice, keep those already there, and include the server of every entry
/// (a later entry for the same server is written only as comments).
pub proof fn firewall_written_once_per_server(
    fw: Seq<(Seq<char>, Seq<char>, Option<Seq<char>>, Seq<Seq<char>>, Seq<Seq<char>>)>,
    st: (Seq<char>, Seq<Seq<char>>, Seq<Seq<char>>),
    k: int,
)
    requires
        st.1.no_duplicates(),
        0 <= k <= fw.len(),
    ensures
        fw_out_fold(fw, st, k).1.no_duplicates(),
        forall|s: Seq<char>| has_name(st.1, s) ==> has_name(fw_out_fold(fw, st, k).1, s),
        forall|i: int| 0 <= i < k ==> has_name(fw_out_fold(fw, st, k).1, spec_server_name_from_server_id_expr(#[trigger] fw[i].0)),
    decreases k,
{
    if k > 0 {
        firewall_written_once_per_server(fw, st, k - 1);
        let prev = fw_out_fold(fw, st, k - 1);
        let sn = spec_server_name_from_server_id_expr(fw[k - 1].0);
        let cur = fw_out_fold(fw, st, k);
        if !has_name(prev.1, sn) {
            assert(cur.1 == prev.1.push(sn));
            assert forall|a: int, b: int| 0 <= a < b < cur.1.len() implies cur.1[a] != cur.1[b] by {
                if b == cur.1.len() - 1 {
                    assert(prev.1[a] == cur.1[a]);
                }
            }
            assert forall|s: Seq<char>| has_name(prev.1, s) implies has_name(cur.1, s) by {
                let j = choose|j: int| 0 <= j < prev.1.len() && prev.1[j] == s;
                assert(cur.1[j] == s);
            }
            assert(cur.1[prev.1.len() as int] == sn);
        }
        assert forall|i: int| 0 <= i < k implies has_name(cur.1, spec_server_name_from_server_id_expr(#[trigger] fw[i].0)) by {
            if i < k - 1 {
                assert(has_name(prev.1, spec_server_name_from_server_id_expr(fw[i].0)));
            }
        }
    }
}

/// Across all the files of a migration, the servers whose merged firewall was written
/// hold no server twice: UpCloud takes one `upcloud_firewall_rules` per server, and a
/// server met again in a later file gets its rules as comments.
pub proof fn generation_writes_one_firewall_per_server<P: SourceProvider, D: VarDetector>(
    p: P,
    d: D,
    rs: Seq<MigrationResult>,
    pts: Seq<PassthroughBlock>,
    names: Seq<Seq<char>>,
    zone: Seq<char>,
    region: Seq<char>,
    k: int,
)
    requires
        0 <= k <= names.len(),
    ensures
        files_fold(p, d, rs, pts, names, zone, region, k).1.no_duplicates(),
    decreases k,
{
    if k > 0 {
        generation_writes_one_firewall_per_server(p, d, rs, pts, names, zone, region, k - 1);
        let prev = files_fold(p, d, rs, pts, names, zone, region, k - 1);
        let f = names[k - 1];
        let x = spec_cross_ref(p, rs);
        let s1 = render_results(p, rs, f, zone, region, x, (file_header(p.spec_display_name(), f, zone), seq![], prev.2, seq![]), rs.len() as int);
        firewall_written_once_per_server(s1.1, (s1.0, prev.1, s1.3), s1.1.len() as int);
    }
}

proof fn lemma_add_name(names: Seq<Seq<char>>, f: Seq<char>)
    requires
        names.no_duplicates(),
    ensures
        add_name(names, f).no_duplicates(),
        has_name(add_name(names, f), f),
        forall|s: Seq<char>| has_name(names, s) ==> has_name(add_name(names, f), s),
{
    let r = add_name(names, f);
    if !has_name(names, f) {
        assert forall|a: int, b: int| 0 <= a < b < r.len() implies r[a] != r[b] by {
            if b == r.len() - 1 {
                assert(names[a] == r[a]);
            }
        }
        assert(r[names.len() as int] == f);
        assert forall|s: Seq<char>| has_name(names, s) implies has_name(r, s) by {
            let j = choose|j: int| 0 <= j < names.len() && names[j] == s;
            assert(r[j] == s);
        }
    }
}

proof fn lemma_result_files(rs: Seq<MigrationResult>, n: int)
    requires
        0 <= n <= rs.len(),
    ensures
        result_files(rs, n).no_duplicates(),
        forall|i: int| 0 <= i < n && #[trigger] rs[i].upcloud_hcl is Some ==> has_name(result_files(rs, n), result_file(rs[i])),
    decreases n,
{
    if n > 0 {
        lemma_result_files(rs, n - 1);
        let prev = result_files(rs, n - 1);
        if rs[n - 1].upcloud_hcl is Some {
            lemma_add_name(prev, result_file(rs[n - 1]));
        }
    }
}

proof fn lemma_pt_files(base: Seq<Seq<char>>, pts: Seq<PassthroughBlock>, n: int)
    requires
        0 <= n <= pts.len(),
        base.no_duplicates(),
    ensures
        pt_files(base, pts, n).no_duplicates(),
        forall|s: Seq<char>| has_name(base, s) ==> has_name(pt_files(base, pts, n), s),
        forall|j: int| 0 <= j < n ==> has_name(pt_files(base, pts, n), pt_file(#[trigger] pts[j])),
    decreases n,
{
    if n > 0 {
        lemma_pt_files(base, pts, n - 1);
        lemma_add_name(pt_files(base, pts, n - 1), pt_file(pts[n - 1]));
    }
}

/// Each source file is migrated into one output file of its name: the output files hold
/// no name twice, and include the file of every result with HCL and of every carried-over
/// block (and the file of the synthesized SSH key variable when one is needed).
pub proof fn one_output_file_per_source_file(rs: Seq<MigrationResult>, pts: Seq<PassthroughBlock>)
    ensures
        output_files(rs, pts).no_duplicates(),
        forall|i: int| 0 <= i < rs.len() && #[trigger] rs[i].upcloud_hcl is Some ==> has_name(output_files(rs, pts), result_file(rs[i])),
        forall|j: int| 0 <= j < pts.len() ==> has_name(output_files(rs, pts), pt_file(#[trigger] pts[j])),
        needs_ssh_var(rs, pts) ==> has_name(output_files(rs, pts), ssh_var_file(rs, pts)),
{
    lemma_result_files(rs, rs.len() as int);
    let f0 = result_files(rs, rs.len() as int);
    lemma_pt_files(f0, pts, pts.len() as int);
    let f1 = pt_files(f0, pts, pts.len() as int);
    if needs_ssh_var(rs, pts) {
        lemma_add_name(f1, ssh_var_file(rs, pts));
    }
}

/// No two entries of `m` share a key.
pub open spec fn keys_unique(m: Seq<((Seq<char>, Seq<char>), Seq<char>)>) -> bool {
    forall|i: int, j: int| 0 <= i < j < m.len() ==> m[i].0 != m[j].0
}

proof fn lemma_rkey_index(m: Seq<((Seq<char>, Seq<char>), Seq<char>)>, k: (Seq<char>, Seq<char>), i: int)
    requires
        0 <= i,
    ensures
        rkey_index(m, k, i) matches Some(j) ==> i <= j < m.len() && m[j].0 == k,
        rkey_index(m, k, i) is None ==> forall|t: int| i <= t < m.len() ==> m[t].0 != k,
    decreases m.len() - i,
{
    if i < m.len() && m[i].0 != k {
        lemma_rkey_index(m, k, i + 1);
    }
}

proof fn lemma_rput_unique(m: Seq<((Seq<char>, Seq<char>), Seq<char>)>, k: (Seq<char>, Seq<char>), v: Seq<char>)
    requires
        keys_unique(m),
    ensures
        keys_unique(rput(m, k, v)),
{
    lemma_rkey_index(m, k, 0);
    let r = rput(m, k, v);
    match rkey_index(m, k, 0) {
        Some(x) => {
            assert forall|i: int, j: int| 0 <= i < j < r.len() implies r[i].0 != r[j].0 by {
                assert(r[i].0 == m[i].0 && r[j].0 == m[j].0);
            }
        },
        None => {
            assert forall|i: int, j: int| 0 <= i < j < r.len() implies r[i].0 != r[j].0 by {
                if j == m.len() {
                    assert(r[i].0 == m[i].0);
                } else {
                    assert(r[i].0 == m[i].0 && r[j].0 == m[j].0);
                }
            }
        },
    }
}

proof fn lemma_render_results_unique<P: SourceProvider>(
    p: P,
    rs: Seq<MigrationResult>,
    f: Seq<char>,
    zone: Seq<char>,
    region: Seq<char>,
    x: XrefModel,
    st0: (Seq<char>, Seq<(Seq<char>, Seq<char>, Option<Seq<char>>, Seq<Seq<char>>, Seq<Seq<char>>)>, Seq<((Seq<char>, Seq<char>), Seq<char>)>, Seq<Seq<char>>),
    n: int,
)
    requires
        keys_unique(st0.2),
    ensures
        keys_unique(render_results(p, rs, f, zone, region, x, st0, n).2),
    decreases n,
{
    if n > 0 {
        lemma_render_results_unique(p, rs, f, zone, region, x, st0, n - 1);
        let prev = render_results(p, rs, f, zone, region, x, st0, n - 1);
        let r = rs[n - 1];
        if r.upcloud_hcl is Some && result_file(r) == f {
            let key = (r.resource_type@, r.resource_name@);
            let h = r.upcloud_hcl->0;
            if r.status == MigrationStatus::Passthrough {
                lemma_rput_unique(prev.2, key, p.spec_rewrite(h@));
            } else {
                let r0 = spec_resolve_placeholders(p, h@, r.resource_name@, zone, region, x);
                let resolved = if r.upcloud_type@ == "upcloud_network"@ && x.k8s_names.len() > 0 { spec_inject_network_lifecycle_block(r0) } else { r0 };
                if r.upcloud_type@ == "upcloud_firewall_rules"@ {
                    let servers = match kv_get(x.firewall_to_server_map, r.resource_name@) {
                        Some(s) => s,
                        None => seq![r.resource_name@],
                    };
                    let fo = fw_servers_fold(resolved, servers, x.server_info_map, r.resource_name@, names_view(r.notes@), prev.1, servers.len() as int);
                    lemma_rput_unique(prev.2, key, match fo.2 { Some(fr) => fr, None => resolved });
                } else {
                    lemma_rput_unique(prev.2, key, resolved);
                }
            }
        }
    }
}

proof fn lemma_promote_unique(
    st: (Seq<char>, Seq<((Seq<char>, Seq<char>), Seq<char>)>, Seq<Seq<char>>),
    spc: Seq<(Seq<char>, Seq<char>)>,
    vtype: Seq<char>,
    k: int,
)
    requires
        keys_unique(st.1),
    ensures
        keys_unique(promote_fold(st, spc, vtype, k).1),
    decreases k,
{
    if k > 0 {
        lemma_promote_unique(st, spc, vtype, k - 1);
        let prev = promote_fold(st, spc, vtype, k - 1);
        let name = spc[k - 1].0;
        let cv = spc[k - 1].1;
        match find(prev.0, storage_header(name)) {
            None => {},
            Some(pos) => {
                match rkey_index(prev.1, (vtype, name), 0) {
                    Some(i) => match find(prev.1[i].1, "{"@) {
                        Some(bp) => lemma_rput_unique(prev.1, (vtype, name), with_count(prev.1[i].1, bp + 1, name, cv)),
                        None => {},
                    },
                    None => {},
                }
            },
        }
    }
}

proof fn lemma_files_fold_unique<P: SourceProvider, D: VarDetector>(
    p: P,
    d: D,
    rs: Seq<MigrationResult>,
    pts: Seq<PassthroughBlock>,
    names: Seq<Seq<char>>,
    zone: Seq<char>,
    region: Seq<char>,
    k: int,
)
    ensures
        keys_unique(files_fold(p, d, rs, pts, names, zone, region, k).2),
    decreases k,
{
    if k > 0 {
        lemma_files_fold_unique(p, d, rs, pts, names, zone, region, k - 1);
        let prev = files_fold(p, d, rs, pts, names, zone, region, k - 1);
        let f = names[k - 1];
        let x = spec_cross_ref(p, rs);
        let st0 = (file_header(p.spec_display_name(), f, zone), Seq::empty(), prev.2, Seq::empty());
        lemma_render_results_unique(p, rs, f, zone, region, x, st0, rs.len() as int);
        let s1 = render_results(p, rs, f, zone, region, x, st0, rs.len() as int);
        let s2 = fw_out_fold(s1.1, (s1.0, prev.1, s1.3), s1.1.len() as int);
        let ssh = needs_ssh_var(rs, pts) && f == ssh_var_file(rs, pts);
        let c3 = s2.0 + pt_fold(p, d, pts, f, zone, results_usage(rs), pts.len() as int);
        let c4 = if ssh { c3 + ssh_var_block() } else { c3 };
        let l4 = if ssh { s2.2.push("  [SYNTH] variable \"ssh_public_key\" added to variables.tf"@) } else { s2.2 };
        let inj = inject_fold(c4, l4, x.storage_inject_map, x.storage_inject_map.len() as int);
        lemma_promote_unique((inj.0, s1.2, inj.1), x.storage_promote_count, p.spec_volume_type(), x.storage_promote_count.len() as int);
    }
}

/// The resolved HCL of a migration holds one entry per resource: no two entries share a
/// (source type, name) key.
pub proof fn resolved_hcl_one_entry_per_resource<P: SourceProvider, D: VarDetector>(
    p: P,
    d: D,
    rs: Seq<MigrationResult>,
    pts: Seq<PassthroughBlock>,
    zone: Seq<char>,
    region: Seq<char>,
)
    ensures
        keys_unique(spec_generate(p, d, rs, pts, zone, region).3),
{
    let names = output_files(rs, pts);
    lemma_files_fold_unique(p, d, rs, pts, names, zone, region, names.len() as int);
}

/// Every block that the source provider's rewriting is applied to has its scan end
/// within `fuel` steps (always so for Azure, whose scan always ends).
pub open spec fn generation_within(rs: Seq<MigrationResult>, pts: Seq<PassthroughBlock>, fuel: nat) -> bool {
    match spec_detect_provider(rs) {
        DetectedProvider::Aws => {
            &&& forall|i: int| 0 <= i < rs.len() ==> match #[trigger] rs[i].upcloud_hcl {
                Some(h) => rs[i].status == MigrationStatus::Passthrough ==> aws_rw_fuel(h@, 0, fuel) is Some,
                None => true,
            }
            &&& forall|j: int| 0 <= j < pts.len() ==> ((#[trigger] pts[j]).kind == PassthroughKind::Output || pts[j].kind == PassthroughKind::Locals || pts[j].kind == PassthroughKind::Data) ==> aws_rw_fuel(pts[j].raw_hcl@, 0, fuel) is Some
        },
        DetectedProvider::Azure => true,
    }
}

/// Rewriting that ends within a bound ends.
pub proof fn generation_within_is_ok(rs: Seq<MigrationResult>, pts: Seq<PassthroughBlock>, fuel: nat)
    requires
        generation_within(rs, pts, fuel),
    ensures
        generation_ok(rs, pts),
{
    match spec_detect_provider(rs) {
        DetectedProvider::Aws => {
            assert forall|i: int| 0 <= i < rs.len() implies match #[trigger] rs[i].upcloud_hcl {
                Some(h) => rs[i].status == MigrationStatus::Passthrough ==> AwsSourceProvider.spec_rewrite_ok(h@),
                None => true,
            } by {
                match rs[i].upcloud_hcl {
                    Some(h) => {
                        if rs[i].status == MigrationStatus::Passthrough {
                            assert(aws_rw_fuel(h@, 0, fuel) is Some);
                        }
                    },
                    None => {},
                }
            }
            assert forall|j: int| 0 <= j < pts.len() implies ((#[trigger] pts[j]).kind == PassthroughKind::Output || pts[j].kind == PassthroughKind::Locals || pts[j].kind == PassthroughKind::Data) ==> AwsSourceProvider.spec_rewrite_ok(pts[j].raw_hcl@) by {
                if pts[j].kind == PassthroughKind::Output || pts[j].kind == PassthroughKind::Locals || pts[j].kind == PassthroughKind::Data {
                    assert(aws_rw_fuel(pts[j].raw_hcl@, 0, fuel) is Some);
                }
            }
        },
        DetectedProvider::Azure => {},
    }
}

/// Generate every output of a migration when the reference rewriting ends within `fuel`
/// steps on each block it is applied to; `None` when some block needs more.
pub fn generate_outputs_checked(results: &[MigrationResult], passthroughs: &[PassthroughBlock], zone: &str, objstorage_region: &str, fuel: u64) -> (r: Option<GeneratedOutput>)
    ensures
        r is Some <==> generation_within(results@, passthroughs@, fuel as nat),
        r matches Some(o) ==> output_view(o) == spec_generate_outputs(results@, passthroughs@, zone@, objstorage_region@),
{
    let dp = detect_provider(results);
    match dp {
        DetectedProvider::Aws => {
            let mut i: usize = 0;
            while i < results.len()
                invariant
                    i <= results@.len(),
                    spec_detect_provider(results@) == DetectedProvider::Aws,
                    forall|k: int| 0 <= k < i ==> match #[trigger] results@[k].upcloud_hcl {
                        Some(h) => results@[k].status == MigrationStatus::Passthrough ==> aws_rw_fuel(h@, 0, fuel as nat) is Some,
                        None => true,
                    },
                decreases results@.len() - i,
            {
                match &results[i].upcloud_hcl {
                    Some(h) => {
                        if results[i].status == MigrationStatus::Passthrough {
                            if crate::migration::providers::aws::generator_support::rewrite_output_refs_bounded(h.as_str(), fuel).is_none() {
                                assert(spec_detect_provider(results@) == DetectedProvider::Aws);
                                assert(results@[i as int].upcloud_hcl == Some(*h));
                                assert(!(match results@[i as int].upcloud_hcl {
                                    Some(h) => results@[i as int].status == MigrationStatus::Passthrough ==> aws_rw_fuel(h@, 0, fuel as nat) is Some,
                                    None => true,
                                }));
                                return None;
                            }
                        }
                    },
                    None => {},
                }
                i += 1;
            }
            let mut j: usize = 0;
            while j < passthroughs.len()
                invariant
                    j <= passthroughs@.len(),
                    spec_detect_provider(results@) == DetectedProvider::Aws,
                    forall|k: int| 0 <= k < j ==> ((#[trigger] passthroughs@[k]).kind == PassthroughKind::Output || passthroughs@[k].kind == PassthroughKind::Locals || passthroughs@[k].kind == PassthroughKind::Data) ==> aws_rw_fuel(passthroughs@[k].raw_hcl@, 0, fuel as nat) is Some,
                decreases passthroughs@.len() - j,
            {
                let pt = &passthroughs[j];
                if pt.kind == PassthroughKind::Output || pt.kind == PassthroughKind::Locals || pt.kind == PassthroughKind::Data {
                    if crate::migration::providers::aws::generator_support::rewrite_output_refs_bounded(pt.raw_hcl.as_str(), fuel).is_none() {
                        assert(spec_detect_provider(results@) == DetectedProvider::Aws);
                        assert(passthroughs@[j as int] == *pt);
                        return None;
                    }
                }
                j += 1;
            }
            proof {
                generation_within_is_ok(results@, passthroughs@, fuel as nat);
            }
            Some(generate_outputs(results, passthroughs, zone, objstorage_region))
        },
        DetectedProvider::Azure => Some(generate_outputs(results, passthroughs, zone, objstorage_region)),
    }
}

} // verus!
