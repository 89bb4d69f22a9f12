//! HCL helpers and template builders shared across provider modules.
use vstd::prelude::*;

use crate::migration::types::opt_view;
use crate::migration::var_detector::opt_str_view;
use crate::migration::generator::{
    inside_todo_marker, remove_todo_interpolations, spec_inside_todo_marker, lemma_inside_marker_extends,
    find_todo_interp, todo_interpolations_removed,
    spec_remove_todo_interpolations,
};
use crate::text::{
    chars_of, count_char, count_char_v, dec, dec_int, ends_with, ends_with_exec, eq_str, find,
    find_from, find_from_exec, has_char, lemma_find_from_bounds, lemma_occ_replace,
    lemma_ref_end_bounds, lemma_ref_end_le, matches_at, occ, push_i64, push_str, push_u64, ref_char, ref_end,
    ref_end_exec, replace_first, replace_first_v, slice_of, starts_with, starts_with_exec,
    string_of, lemma_count_char_subrange,
};

verus! {

/// A value that Terraform reads as an expression rather than a literal.
pub open spec fn spec_is_tf_expr(val: Seq<char>) -> bool {
    starts_with(val, "var."@) || starts_with(val, "${"@) || starts_with(val, "local."@)
}

pub fn is_tf_expr(val: &str) -> (r: bool)
    ensures
        r == spec_is_tf_expr(val@),
{
    let v = chars_of(val);
    starts_with_exec(&v, "var.") || starts_with_exec(&v, "${") || starts_with_exec(&v, "local.")
}

/// A pure reference (`var.x`, `local.x`) or a single interpolation `${...}` with
/// nothing after its closing brace.
pub open spec fn spec_is_pure_tf_expr(val: Seq<char>) -> bool {
    if starts_with(val, "var."@) || starts_with(val, "local."@) {
        true
    } else if starts_with(val, "${"@) && ends_with(val, "}"@) {
        !val.subrange(2, val.len() - 1).contains('}')
    } else {
        false
    }
}

/// Return the HCL representation of a scalar value.
///
/// - Pure reference (`var.x`, `local.x`) → unquoted.
/// - Pure interpolation (`${...}` with nothing after the closing `}`) → unquoted.
/// - Mixed template (`${var.x}-suffix`) or plain string → quoted.
fn is_pure_tf_expr(val: &str) -> (r: bool)
    ensures
        r == spec_is_pure_tf_expr(val@),
{
    let v = chars_of(val);
    if starts_with_exec(&v, "var.") || starts_with_exec(&v, "local.") {
        return true;
    }
    proof {
        reveal_strlit("${");
        reveal_strlit("}");
    }
    if starts_with_exec(&v, "${") && ends_with_exec(&v, "}") {
        let n = v.len();
        assert(v@.subrange(0, 2)[1] == v@[1]);
        assert(v@.subrange(n - 1, n as int)[0] == v@[n - 1]);
        assert(n >= 3);
        let inner = slice_of(&v, 2, n - 1);
        return !has_char(&inner, '}');
    }
    false
}

pub open spec fn spec_hcl_value(val: Seq<char>) -> Seq<char> {
    if spec_is_pure_tf_expr(val) {
        val
    } else {
        "\""@ + val + "\""@
    }
}

/// The value as HCL: pure expressions as they are, anything else quoted.
pub fn hcl_value(val: &str) -> (r: String)
    ensures
        r@ == spec_hcl_value(val@),
{
    if is_pure_tf_expr(val) {
        String::from_str(val)
    } else {
        let mut s = String::new();
        push_str(&mut s, "\"");
        push_str(&mut s, val);
        push_str(&mut s, "\"");
        s
    }
}

pub const FIREWALL_CATCHALL_EGRESS: &'static str = "  firewall_rule {\n    direction = \"out\"\n    action    = \"accept\"\n    family    = \"IPv4\"\n    comment   = \"Allow all outbound\"\n  }\n";

pub open spec fn spec_is_valid_pg_property(name: Seq<char>) -> bool {
    name == "admin_password"@
    || name == "admin_username"@
    || name == "automatic_utility_network_ip_filter"@
    || name == "autovacuum_analyze_scale_factor"@
    || name == "autovacuum_analyze_threshold"@
    || name == "autovacuum_freeze_max_age"@
    || name == "autovacuum_max_workers"@
    || name == "autovacuum_naptime"@
    || name == "autovacuum_vacuum_cost_delay"@
    || name == "autovacuum_vacuum_cost_limit"@
    || name == "autovacuum_vacuum_scale_factor"@
    || name == "autovacuum_vacuum_threshold"@
    || name == "backup_hour"@
    || name == "backup_interval_hours"@
    || name == "backup_minute"@
    || name == "backup_retention_days"@
    || name == "bgwriter_delay"@
    || name == "bgwriter_flush_after"@
    || name == "bgwriter_lru_maxpages"@
    || name == "bgwriter_lru_multiplier"@
    || name == "deadlock_timeout"@
    || name == "default_toast_compression"@
    || name == "enable_ha_replica_dns"@
    || name == "idle_in_transaction_session_timeout"@
    || name == "io_combine_limit"@
    || name == "io_max_combine_limit"@
    || name == "io_max_concurrency"@
    || name == "io_method"@
    || name == "io_workers"@
    || name == "ip_filter"@
    || name == "jit"@
    || name == "log_autovacuum_min_duration"@
    || name == "log_error_verbosity"@
    || name == "log_line_prefix"@
    || name == "log_min_duration_statement"@
    || name == "log_temp_files"@
    || name == "max_connections"@
    || name == "max_files_per_process"@
    || name == "max_locks_per_transaction"@
    || name == "max_logical_replication_workers"@
    || name == "max_parallel_workers"@
    || name == "max_parallel_workers_per_gather"@
    || name == "max_pred_locks_per_transaction"@
    || name == "max_prepared_transactions"@
    || name == "max_replication_slots"@
    || name == "max_slot_wal_keep_size"@
    || name == "max_stack_depth"@
    || name == "max_standby_archive_delay"@
    || name == "max_standby_streaming_delay"@
    || name == "max_sync_workers_per_subscription"@
    || name == "max_wal_senders"@
    || name == "max_worker_processes"@
    || name == "node_count"@
    || name == "password_encryption"@
    || name == "pg_partman_bgw_interval"@
    || name == "pg_partman_bgw_role"@
    || name == "pg_stat_monitor_enable"@
    || name == "pg_stat_monitor_pgsm_enable_query_plan"@
    || name == "pg_stat_monitor_pgsm_max_buckets"@
    || name == "pg_stat_statements_track"@
    || name == "public_access"@
    || name == "service_log"@
    || name == "shared_buffers_percentage"@
    || name == "switchover_windows"@
    || name == "synchronous_replication"@
    || name == "temp_file_limit"@
    || name == "timezone"@
    || name == "track_activity_query_size"@
    || name == "track_commit_timestamp"@
    || name == "track_functions"@
    || name == "track_io_timing"@
    || name == "variant"@
    || name == "version"@
    || name == "wal_sender_timeout"@
    || name == "wal_writer_delay"@
    || name == "work_mem"@
}

/// Returns true if `name` is a recognized property of `upcloud_managed_database_postgresql`.
/// Used to filter provider-specific parameter names before suggesting or injecting them.
pub fn is_valid_pg_property(name: &str) -> (r: bool)
    ensures
        r == spec_is_valid_pg_property(name@),
{
    let v = chars_of(name);
    eq_str(&v, "admin_password")
        || eq_str(&v, "admin_username")
        || eq_str(&v, "automatic_utility_network_ip_filter")
        || eq_str(&v, "autovacuum_analyze_scale_factor")
        || eq_str(&v, "autovacuum_analyze_threshold")
        || eq_str(&v, "autovacuum_freeze_max_age")
        || eq_str(&v, "autovacuum_max_workers")
        || eq_str(&v, "autovacuum_naptime")
        || eq_str(&v, "autovacuum_vacuum_cost_delay")
        || eq_str(&v, "autovacuum_vacuum_cost_limit")
        || eq_str(&v, "autovacuum_vacuum_scale_factor")
        || eq_str(&v, "autovacuum_vacuum_threshold")
        || eq_str(&v, "backup_hour")
        || eq_str(&v, "backup_interval_hours")
        || eq_str(&v, "backup_minute")
        || eq_str(&v, "backup_retention_days")
        || eq_str(&v, "bgwriter_delay")
        || eq_str(&v, "bgwriter_flush_after")
        || eq_str(&v, "bgwriter_lru_maxpages")
        || eq_str(&v, "bgwriter_lru_multiplier")
        || eq_str(&v, "deadlock_timeout")
        || eq_str(&v, "default_toast_compression")
        || eq_str(&v, "enable_ha_replica_dns")
        || eq_str(&v, "idle_in_transaction_session_timeout")
        || eq_str(&v, "io_combine_limit")
        || eq_str(&v, "io_max_combine_limit")
        || eq_str(&v, "io_max_concurrency")
        || eq_str(&v, "io_method")
        || eq_str(&v, "io_workers")
        || eq_str(&v, "ip_filter")
        || eq_str(&v, "jit")
        || eq_str(&v, "log_autovacuum_min_duration")
        || eq_str(&v, "log_error_verbosity")
        || eq_str(&v, "log_line_prefix")
        || eq_str(&v, "log_min_duration_statement")
        || eq_str(&v, "log_temp_files")
        || eq_str(&v, "max_connections")
        || eq_str(&v, "max_files_per_process")
        || eq_str(&v, "max_locks_per_transaction")
        || eq_str(&v, "max_logical_replication_workers")
        || eq_str(&v, "max_parallel_workers")
        || eq_str(&v, "max_parallel_workers_per_gather")
        || eq_str(&v, "max_pred_locks_per_transaction")
        || eq_str(&v, "max_prepared_transactions")
        || eq_str(&v, "max_replication_slots")
        || eq_str(&v, "max_slot_wal_keep_size")
        || eq_str(&v, "max_stack_depth")
        || eq_str(&v, "max_standby_archive_delay")
        || eq_str(&v, "max_standby_streaming_delay")
        || eq_str(&v, "max_sync_workers_per_subscription")
        || eq_str(&v, "max_wal_senders")
        || eq_str(&v, "max_worker_processes")
        || eq_str(&v, "node_count")
        || eq_str(&v, "password_encryption")
        || eq_str(&v, "pg_partman_bgw_interval")
        || eq_str(&v, "pg_partman_bgw_role")
        || eq_str(&v, "pg_stat_monitor_enable")
        || eq_str(&v, "pg_stat_monitor_pgsm_enable_query_plan")
        || eq_str(&v, "pg_stat_monitor_pgsm_max_buckets")
        || eq_str(&v, "pg_stat_statements_track")
        || eq_str(&v, "public_access")
        || eq_str(&v, "service_log")
        || eq_str(&v, "shared_buffers_percentage")
        || eq_str(&v, "switchover_windows")
        || eq_str(&v, "synchronous_replication")
        || eq_str(&v, "temp_file_limit")
        || eq_str(&v, "timezone")
        || eq_str(&v, "track_activity_query_size")
        || eq_str(&v, "track_commit_timestamp")
        || eq_str(&v, "track_functions")
        || eq_str(&v, "track_io_timing")
        || eq_str(&v, "variant")
        || eq_str(&v, "version")
        || eq_str(&v, "wal_sender_timeout")
        || eq_str(&v, "wal_writer_delay")
        || eq_str(&v, "work_mem")
}

/// `x` on a line of its own after a newline, or nothing when `x` is empty.
pub open spec fn newline_prefixed(x: Seq<char>) -> Seq<char> {
    if x.len() == 0 {
        seq![]
    } else {
        "\n"@ + x
    }
}

fn push_newline_prefixed(s: &mut String, x: &str)
    ensures
        final(s)@ == old(s)@ + newline_prefixed(x@),
{
    let v = chars_of(x);
    if v.len() != 0 {
        push_str(s, "\n");
        push_str(s, x);
    }
}

pub open spec fn spec_upcloud_managed_database_hcl(upcloud_type: Seq<char>, name: Seq<char>, display_name: Seq<char>, plan: Seq<char>, network_uuid_placeholder: Seq<char>, extra_properties: Seq<char>) -> Seq<char> {
    "resource \""@
        + upcloud_type
        + "\" \""@
        + name
        + "\" {\n  name  = \""@
        + display_name
        + "\"\n  plan  = \""@
        + plan
        + "\"\n  title = \""@
        + name
        + "\"\n  zone  = \"__ZONE__\"\n\n  network {\n    family = \"IPv4\"\n    name   = \"private\"\n    type   = \"private\"\n    uuid   = \""@
        + network_uuid_placeholder
        + "\"\n  }\n\n  properties {\n    public_access = false"@
        + newline_prefixed(extra_properties)
        + "\n  }\n}\n"@
}

/// Generate an `upcloud_managed_database_*` HCL resource block.
///
/// `extra_properties` is optional additional lines to inject inside the `properties` block
/// (e.g. `version = "16"` or parameter group markers). Each line should NOT have a trailing newline.
pub fn upcloud_managed_database_hcl(upcloud_type: &str, name: &str, display_name: &str, plan: &str, network_uuid_placeholder: &str, extra_properties: &str) -> (r: String)
    ensures
        r@ == spec_upcloud_managed_database_hcl(upcloud_type@, name@, display_name@, plan@, network_uuid_placeholder@, extra_properties@),
{
    let mut s = String::new();
    push_str(&mut s, "resource \"");
    push_str(&mut s, upcloud_type);
    push_str(&mut s, "\" \"");
    push_str(&mut s, name);
    push_str(&mut s, "\" {\n  name  = \"");
    push_str(&mut s, display_name);
    push_str(&mut s, "\"\n  plan  = \"");
    push_str(&mut s, plan);
    push_str(&mut s, "\"\n  title = \"");
    push_str(&mut s, name);
    push_str(&mut s, "\"\n  zone  = \"__ZONE__\"\n\n  network {\n    family = \"IPv4\"\n    name   = \"private\"\n    type   = \"private\"\n    uuid   = \"");
    push_str(&mut s, network_uuid_placeholder);
    push_str(&mut s, "\"\n  }\n\n  properties {\n    public_access = false");
    push_newline_prefixed(&mut s, extra_properties);
    push_str(&mut s, "\n  }\n}\n");
    s
}

pub open spec fn spec_upcloud_storage_hcl(name: Seq<char>, title: Seq<char>, size: u32, tier: Seq<char>, count_line: Seq<char>) -> Seq<char> {
    "resource \"upcloud_storage\" \""@
        + name
        + "\" {\n"@
        + count_line
        + "  title = \""@
        + title
        + "\"\n  size  = "@
        + dec(size as nat)
        + "\n  tier  = \""@
        + tier
        + "\"\n  zone  = \"__ZONE__\"\n}\n"@
}

/// Generate an `upcloud_storage` HCL resource block.
pub fn upcloud_storage_hcl(name: &str, title: &str, size: u32, tier: &str, count_line: &str) -> (r: String)
    ensures
        r@ == spec_upcloud_storage_hcl(name@, title@, size, tier@, count_line@),
{
    let mut s = String::new();
    push_str(&mut s, "resource \"upcloud_storage\" \"");
    push_str(&mut s, name);
    push_str(&mut s, "\" {\n");
    push_str(&mut s, count_line);
    push_str(&mut s, "  title = \"");
    push_str(&mut s, title);
    push_str(&mut s, "\"\n  size  = ");
    push_u64(&mut s, size as u64);
    push_str(&mut s, "\n  tier  = \"");
    push_str(&mut s, tier);
    push_str(&mut s, "\"\n  zone  = \"__ZONE__\"\n}\n");
    s
}

pub open spec fn spec_upcloud_loadbalancer_hcl(name: Seq<char>, plan: Seq<char>, networks_block: Seq<char>, extra_comment: Seq<char>) -> Seq<char> {
    "resource \"upcloud_loadbalancer\" \""@
        + name
        + "\" {\n  name              = \""@
        + name
        + "\"\n  plan              = \""@
        + plan
        + "\"\n  zone              = \"__ZONE__\"\n  configured_status = \"started\"\n\n"@
        + networks_block
        + newline_prefixed(extra_comment)
        + "\n\n  # Backends and frontends are separate resources\n}\n"@
}

/// Generate an `upcloud_loadbalancer` HCL resource block.
pub fn upcloud_loadbalancer_hcl(name: &str, plan: &str, networks_block: &str, extra_comment: &str) -> (r: String)
    ensures
        r@ == spec_upcloud_loadbalancer_hcl(name@, plan@, networks_block@, extra_comment@),
{
    let mut s = String::new();
    push_str(&mut s, "resource \"upcloud_loadbalancer\" \"");
    push_str(&mut s, name);
    push_str(&mut s, "\" {\n  name              = \"");
    push_str(&mut s, name);
    push_str(&mut s, "\"\n  plan              = \"");
    push_str(&mut s, plan);
    push_str(&mut s, "\"\n  zone              = \"__ZONE__\"\n  configured_status = \"started\"\n\n");
    push_str(&mut s, networks_block);
    push_newline_prefixed(&mut s, extra_comment);
    push_str(&mut s, "\n\n  # Backends and frontends are separate resources\n}\n");
    s
}

pub open spec fn spec_upcloud_firewall_rules_hcl(name: Seq<char>, rule_blocks: Seq<char>) -> Seq<char> {
    "resource \"upcloud_firewall_rules\" \""@
        + name
        + "\" {\n  server_id = upcloud_server.<TODO>.id\n\n"@
        + rule_blocks
        + "}\n"@
}

/// Generate an `upcloud_firewall_rules` HCL resource block.
pub fn upcloud_firewall_rules_hcl(name: &str, rule_blocks: &str) -> (r: String)
    ensures
        r@ == spec_upcloud_firewall_rules_hcl(name@, rule_blocks@),
{
    let mut s = String::new();
    push_str(&mut s, "resource \"upcloud_firewall_rules\" \"");
    push_str(&mut s, name);
    push_str(&mut s, "\" {\n  server_id = upcloud_server.<TODO>.id\n\n");
    push_str(&mut s, rule_blocks);
    push_str(&mut s, "}\n");
    s
}

pub open spec fn spec_upcloud_router_hcl(name: Seq<char>) -> Seq<char> {
    "resource \"upcloud_router\" \""@
        + name
        + "_router\" {\n  name = \""@
        + name
        + "-router\"\n}\n"@
}

/// An `upcloud_router` resource named after `name`.
pub fn upcloud_router_hcl(name: &str) -> (r: String)
    ensures
        r@ == spec_upcloud_router_hcl(name@),
{
    let mut s = String::new();
    push_str(&mut s, "resource \"upcloud_router\" \"");
    push_str(&mut s, name);
    push_str(&mut s, "_router\" {\n  name = \"");
    push_str(&mut s, name);
    push_str(&mut s, "-router\"\n}\n");
    s
}

pub open spec fn spec_upcloud_object_storage_hcl(resource_name: Seq<char>, bucket_name: Seq<char>) -> Seq<char> {
    "resource \"upcloud_managed_object_storage\" \""@
        + resource_name
        + "\" {\n  name              = \""@
        + resource_name
        + "-storage\"\n  region            = \"__OBJSTORAGE_REGION__\"\n  configured_status = \"started\"\n}\n\nresource \"upcloud_managed_object_storage_bucket\" \""@
        + resource_name
        + "_bucket\" {\n  service_uuid = upcloud_managed_object_storage."@
        + resource_name
        + ".id\n  name         = \""@
        + bucket_name
        + "\"\n}\n"@
}

/// A managed object storage service with one bucket.
pub fn upcloud_object_storage_hcl(resource_name: &str, bucket_name: &str) -> (r: String)
    ensures
        r@ == spec_upcloud_object_storage_hcl(resource_name@, bucket_name@),
{
    let mut s = String::new();
    push_str(&mut s, "resource \"upcloud_managed_object_storage\" \"");
    push_str(&mut s, resource_name);
    push_str(&mut s, "\" {\n  name              = \"");
    push_str(&mut s, resource_name);
    push_str(&mut s, "-storage\"\n  region            = \"__OBJSTORAGE_REGION__\"\n  configured_status = \"started\"\n}\n\nresource \"upcloud_managed_object_storage_bucket\" \"");
    push_str(&mut s, resource_name);
    push_str(&mut s, "_bucket\" {\n  service_uuid = upcloud_managed_object_storage.");
    push_str(&mut s, resource_name);
    push_str(&mut s, ".id\n  name         = \"");
    push_str(&mut s, bucket_name);
    push_str(&mut s, "\"\n}\n");
    s
}

pub open spec fn spec_storage_devices_snippet(server_ref: Seq<char>, storage_ref: Seq<char>) -> Seq<char> {
    "# Add inside resource \"upcloud_server\" \""@
        + server_ref
        + "\" {\n  storage_devices {\n    storage = upcloud_storage."@
        + storage_ref
        + ".id\n    type    = \"disk\"\n  }"@
}

/// The `storage_devices` block that attaches a storage to a server.
pub fn storage_devices_snippet(server_ref: &str, storage_ref: &str) -> (r: String)
    ensures
        r@ == spec_storage_devices_snippet(server_ref@, storage_ref@),
{
    let mut s = String::new();
    push_str(&mut s, "# Add inside resource \"upcloud_server\" \"");
    push_str(&mut s, server_ref);
    push_str(&mut s, "\" {\n  storage_devices {\n    storage = upcloud_storage.");
    push_str(&mut s, storage_ref);
    push_str(&mut s, ".id\n    type    = \"disk\"\n  }");
    s
}

pub open spec fn spec_upcloud_kubernetes_cluster_hcl(id: Seq<char>, name_hcl: Seq<char>, version_hcl: Seq<char>) -> Seq<char> {
    "resource \"upcloud_kubernetes_cluster\" \""@
        + id
        + "\" {\n  control_plane_ip_filter = [\"0.0.0.0/0\"]  # restrict to known CIDRs in production\n  name                    = "@
        + name_hcl
        + "\n  network                 = \"<TODO: upcloud_network reference>\"\n  zone                    = \"__ZONE__\"\n  version                 = "@
        + version_hcl
        + "\n  # plan = \"prod-md\"  # use \"dev\" for non-production clusters (check `upctl kubernetes plans`)\n  # private_node_groups = true  # uncomment if node-group subnets are private\n}\n"@
}

/// An `upcloud_kubernetes_cluster` resource.
pub fn upcloud_kubernetes_cluster_hcl(id: &str, name_hcl: &str, version_hcl: &str) -> (r: String)
    ensures
        r@ == spec_upcloud_kubernetes_cluster_hcl(id@, name_hcl@, version_hcl@),
{
    let mut s = String::new();
    push_str(&mut s, "resource \"upcloud_kubernetes_cluster\" \"");
    push_str(&mut s, id);
    push_str(&mut s, "\" {\n  control_plane_ip_filter = [\"0.0.0.0/0\"]  # restrict to known CIDRs in production\n  name                    = ");
    push_str(&mut s, name_hcl);
    push_str(&mut s, "\n  network                 = \"<TODO: upcloud_network reference>\"\n  zone                    = \"__ZONE__\"\n  version                 = ");
    push_str(&mut s, version_hcl);
    push_str(&mut s, "\n  # plan = \"prod-md\"  # use \"dev\" for non-production clusters (check `upctl kubernetes plans`)\n  # private_node_groups = true  # uncomment if node-group subnets are private\n}\n");
    s
}

/// The firewall protocol for a rule: `tcp`, `udp`, `icmp` (also for `1`), else `tcp`.
pub open spec fn spec_fw_protocol(protocol: Seq<char>) -> Seq<char> {
    if protocol == "udp"@ {
        "udp"@
    } else if protocol == "icmp"@ || protocol == "1"@ {
        "icmp"@
    } else {
        "tcp"@
    }
}

/// A rule's protocol is kept when it is `tcp`, `udp` or `icmp`; the ICMP protocol
/// number `1` becomes `icmp`; anything else becomes `tcp`. So a firewall rule that is not
/// all-traffic carries the protocol line of its source protocol.
pub proof fn firewall_rule_keeps_known_protocols(
    direction: Seq<char>,
    from_port: i32,
    to_port: i32,
    protocol: Seq<char>,
    description: Option<Seq<char>>,
)
    ensures
        (protocol == "tcp"@ || protocol == "udp"@ || protocol == "icmp"@) ==> spec_fw_protocol(protocol) == protocol,
        protocol == "1"@ ==> spec_fw_protocol(protocol) == "icmp"@,
        !(protocol == "tcp"@ || protocol == "udp"@ || protocol == "icmp"@ || protocol == "1"@) ==> spec_fw_protocol(protocol) == "tcp"@,
        (protocol == "tcp"@ || protocol == "udp"@ || protocol == "icmp"@) ==> crate::text::contains(
            spec_build_firewall_rule(direction, from_port, to_port, protocol, description, false),
            "    protocol  = \""@ + protocol + "\"\n"@,
        ),
{
    reveal_strlit("tcp");
    reveal_strlit("udp");
    reveal_strlit("icmp");
    reveal_strlit("1");
    assert("tcp"@[0] == 't' && "udp"@[0] == 'u' && "icmp"@[0] == 'i' && "1"@[0] == '1');
    if protocol == "tcp"@ || protocol == "udp"@ || protocol == "icmp"@ {
        let line = "    protocol  = \""@ + protocol + "\"\n"@;
        let head = "  firewall_rule {\n"@ + "    direction = \""@ + direction + "\"\n"@
            + "    action    = \"accept\"\n"@ + "    family    = \"IPv4\"\n"@;
        let whole = spec_build_firewall_rule(direction, from_port, to_port, protocol, description, false);
        assert(whole =~= head + line + fw_port_lines(from_port, to_port) + fw_comment_line(description) + "  }"@);
        assert(whole.subrange(head.len() as int, (head.len() + line.len()) as int) =~= line);
        assert(matches_at(whole, line, head.len() as int));
        lemma_find_from_bounds(whole, line, 0);
    }
}

/// A firewall rule that is not all-traffic and does not span every port carries its
/// source ports: the first port as `destination_port_start` and the last as
/// `destination_port_end`.
pub proof fn firewall_rule_keeps_ports(
    direction: Seq<char>,
    from_port: i32,
    to_port: i32,
    protocol: Seq<char>,
    description: Option<Seq<char>>,
)
    requires
        from_port > 0 || to_port < 65535,
    ensures
        crate::text::contains(
            spec_build_firewall_rule(direction, from_port, to_port, protocol, description, false),
            "    destination_port_start = \""@ + dec_int(from_port as int) + "\"\n"@,
        ),
        crate::text::contains(
            spec_build_firewall_rule(direction, from_port, to_port, protocol, description, false),
            "    destination_port_end   = \""@ + dec_int(to_port as int) + "\"\n"@,
        ),
{
    let l1 = "    destination_port_start = \""@ + dec_int(from_port as int) + "\"\n"@;
    let l2 = "    destination_port_end   = \""@ + dec_int(to_port as int) + "\"\n"@;
    let head = "  firewall_rule {\n"@ + "    direction = \""@ + direction + "\"\n"@
        + "    action    = \"accept\"\n"@ + "    family    = \"IPv4\"\n"@
        + "    protocol  = \""@ + spec_fw_protocol(protocol) + "\"\n"@;
    let whole = spec_build_firewall_rule(direction, from_port, to_port, protocol, description, false);
    assert(whole =~= head + l1 + l2 + fw_comment_line(description) + "  }"@);
    assert(whole.subrange(head.len() as int, (head.len() + l1.len()) as int) =~= l1);
    assert(matches_at(whole, l1, head.len() as int));
    lemma_find_from_bounds(whole, l1, 0);
    assert(whole.subrange((head.len() + l1.len()) as int, (head.len() + l1.len() + l2.len()) as int) =~= l2);
    assert(matches_at(whole, l2, (head.len() + l1.len()) as int));
    lemma_find_from_bounds(whole, l2, 0);
}

fn fw_protocol(protocol: &str) -> (r: &'static str)
    ensures
        r@ == spec_fw_protocol(protocol@),
{
    let v = chars_of(protocol);
    if eq_str(&v, "udp") {
        "udp"
    } else if eq_str(&v, "icmp") || eq_str(&v, "1") {
        "icmp"
    } else {
        "tcp"
    }
}

pub open spec fn fw_port_lines(from_port: i32, to_port: i32) -> Seq<char> {
    if from_port > 0 || to_port < 65535 {
        "    destination_port_start = \""@ + dec_int(from_port as int) + "\"\n"@
            + "    destination_port_end   = \""@ + dec_int(to_port as int) + "\"\n"@
    } else {
        seq![]
    }
}

pub open spec fn fw_comment_line(description: Option<Seq<char>>) -> Seq<char> {
    match description {
        Some(d) => if d.len() > 0 {
            "    comment = \""@ + d + "\"\n"@
        } else {
            seq![]
        },
        None => seq![],
    }
}

/// One `firewall_rule` block: direction, accept, IPv4; unless the rule covers all
/// traffic, its protocol and, where the ports are not the full range, the port
/// range; a comment when the description is non-empty.
pub open spec fn spec_build_firewall_rule(
    direction: Seq<char>,
    from_port: i32,
    to_port: i32,
    protocol: Seq<char>,
    description: Option<Seq<char>>,
    is_all_traffic: bool,
) -> Seq<char> {
    "  firewall_rule {\n"@ + "    direction = \""@ + direction + "\"\n"@
        + "    action    = \"accept\"\n"@ + "    family    = \"IPv4\"\n"@
        + (if !is_all_traffic {
        "    protocol  = \""@ + spec_fw_protocol(protocol) + "\"\n"@ + fw_port_lines(
            from_port,
            to_port,
        )
    } else {
        seq![]
    }) + fw_comment_line(description) + "  }"@
}

fn push_fw_protocol_ports(s: &mut String, from_port: i32, to_port: i32, protocol: &str)
    ensures
        final(s)@ == old(s)@ + "    protocol  = \""@ + spec_fw_protocol(protocol@) + "\"\n"@ + fw_port_lines(from_port, to_port),
{
    let proto = fw_protocol(protocol);
    push_str(s, "    protocol  = \"");
    push_str(s, proto);
    push_str(s, "\"\n");
    if from_port > 0 || to_port < 65535 {
        push_str(s, "    destination_port_start = \"");
        push_i64(s, from_port as i64);
        push_str(s, "\"\n");
        push_str(s, "    destination_port_end   = \"");
        push_i64(s, to_port as i64);
        push_str(s, "\"\n");
    }
}

fn push_fw_comment(s: &mut String, description: Option<&str>)
    ensures
        final(s)@ == old(s)@ + fw_comment_line(opt_str_view(description)),
{
    match description {
        Some(d) => {
            let dv = chars_of(d);
            if dv.len() > 0 {
                push_str(s, "    comment = \"");
                push_str(s, d);
                push_str(s, "\"\n");
            }
        },
        None => {},
    }
}

// When `is_all_traffic` is true, protocol/port constraints are omitted.
// Callers map provider-specific wildcards (AWS `-1`, Azure `*`) to that bool.
pub fn build_firewall_rule(
    direction: &str,
    from_port: i32,
    to_port: i32,
    protocol: &str,
    description: Option<&str>,
    is_all_traffic: bool,
) -> (r: String)
    ensures
        r@ == spec_build_firewall_rule(
            direction@,
            from_port,
            to_port,
            protocol@,
            opt_str_view(description),
            is_all_traffic,
        ),
{
    let mut s = String::new();
    push_str(&mut s, "  firewall_rule {\n");
    push_str(&mut s, "    direction = \"");
    push_str(&mut s, direction);
    push_str(&mut s, "\"\n");
    push_str(&mut s, "    action    = \"accept\"\n");
    push_str(&mut s, "    family    = \"IPv4\"\n");
    if !is_all_traffic {
        push_fw_protocol_ports(&mut s, from_port, to_port, protocol);
    }
    push_fw_comment(&mut s, description);
    push_str(&mut s, "  }");
    s
}


/// A firewall rule read from a source security group: direction, first and last port,
/// protocol, description, and whether it admits all traffic.
pub open spec fn fw_rules_view(v: Seq<(String, i32, i32, String, Option<String>, bool)>) -> Seq<(Seq<char>, i32, i32, Seq<char>, Option<Seq<char>>, bool)> {
    v.map_values(|r: (String, i32, i32, String, Option<String>, bool)| (r.0@, r.1, r.2, r.3@, opt_view(r.4), r.5))
}

/// The `firewall_rule` blocks of the first `n` rules, each followed by a newline. A rule
/// whose protocol is `any_proto` gets no protocol line, as one that admits all traffic.
pub open spec fn fw_rule_lines(rules: Seq<(Seq<char>, i32, i32, Seq<char>, Option<Seq<char>>, bool)>, any_proto: Seq<char>, n: int) -> Seq<char>
    decreases n,
{
    if n <= 0 {
        seq![]
    } else {
        let r = rules[n - 1];
        fw_rule_lines(rules, any_proto, n - 1) + spec_build_firewall_rule(r.0, r.1, r.2, r.3, r.4, r.5 || r.3 == any_proto) + "\n"@
    }
}

/// Whether one of the first `n` rules admits all outbound traffic.
pub open spec fn has_out_all(rules: Seq<(Seq<char>, i32, i32, Seq<char>, Option<Seq<char>>, bool)>, n: int) -> bool
    decreases n,
{
    if n <= 0 {
        false
    } else {
        (rules[n - 1].0 == "out"@ && rules[n - 1].5) || has_out_all(rules, n - 1)
    }
}

/// The rule blocks of a firewall: every rule's block, then the catch-all outbound rule
/// unless some rule already admits all outbound traffic.
pub open spec fn spec_firewall_rule_blocks(rules: Seq<(Seq<char>, i32, i32, Seq<char>, Option<Seq<char>>, bool)>, any_proto: Seq<char>) -> Seq<char> {
    fw_rule_lines(rules, any_proto, rules.len() as int) + if has_out_all(rules, rules.len() as int) {
        seq![]
    } else {
        FIREWALL_CATCHALL_EGRESS@
    }
}

pub fn firewall_rule_blocks(rules: &Vec<(String, i32, i32, String, Option<String>, bool)>, any_proto: &str) -> (r: String)
    ensures
        r@ == spec_firewall_rule_blocks(fw_rules_view(rules@), any_proto@),
{
    let ghost rv = fw_rules_view(rules@);
    let mut s = String::new();
    let mut out_all = false;
    let mut i: usize = 0;
    while i < rules.len()
        invariant
            i <= rules@.len(),
            rv == fw_rules_view(rules@),
            s@ == fw_rule_lines(rv, any_proto@, i as int),
            out_all == has_out_all(rv, i as int),
        decreases rules@.len() - i,
    {
        let r = &rules[i];
        let all = r.5 || eq_str(&chars_of(r.3.as_str()), any_proto);
        let block = match &r.4 {
            Some(d) => build_firewall_rule(r.0.as_str(), r.1, r.2, r.3.as_str(), Some(d.as_str()), all),
            None => build_firewall_rule(r.0.as_str(), r.1, r.2, r.3.as_str(), None, all),
        };
        push_str(&mut s, block.as_str());
        push_str(&mut s, "\n");
        if eq_str(&chars_of(r.0.as_str()), "out") && r.5 {
            out_all = true;
        }
        i += 1;
    }
    if !out_all {
        push_str(&mut s, FIREWALL_CATCHALL_EGRESS);
    }
    s
}

/// The text that replaces a leaked data source reference.
pub open spec fn data_rep(label: Seq<char>) -> Seq<char> {
    "<TODO: remove "@ + label + " data source ref>"@
}

/// The text that replaces a leaked resource reference.
pub open spec fn res_rep(label: Seq<char>) -> Seq<char> {
    "<TODO: remove "@ + label + " resource ref>"@
}

/// What the sanitizing scan needs of a search text and its replacement: the search
/// text is made of reference characters, and the replacement is a `<...>` marker in
/// which the search text never occurs. Each replacement then removes an occurrence,
/// so the scan ends.
pub open spec fn san_wf(needle: Seq<char>, rep: Seq<char>) -> bool {
    &&& needle.len() > 0
    &&& forall|j: int| 0 <= j < needle.len() ==> ref_char(#[trigger] needle[j], false)
    &&& rep.len() > 0
    &&& rep[0] == '<'
    &&& rep.last() == '>'
    &&& forall|j: int| 0 <= j ==> !matches_at(rep, needle, j)
}

/// A reference that starts with `needle` at `start` is at least as long as `needle`,
/// and replacing its first occurrence by `rep` removes an occurrence of `needle`.
pub proof fn lemma_san_step(s: Seq<char>, needle: Seq<char>, rep: Seq<char>, start: int)
    requires
        san_wf(needle, rep),
        matches_at(s, needle, start),
    ensures
        start + needle.len() <= ref_end(s, start, false) <= s.len(),
        occ(replace_first(s, s.subrange(start, ref_end(s, start, false)), rep), needle) < occ(
            s,
            needle,
        ),
{
    let nlen = needle.len() as int;
    assert forall|j: int| start <= j < start + nlen implies ref_char(#[trigger] s[j], false) by {
        assert(s[j] == s.subrange(start, start + nlen)[j - start]);
        assert(ref_char(needle[j - start], false));
    }
    lemma_ref_end_bounds(s, start, start + nlen, false);
    let end = ref_end(s, start, false);
    let pr = s.subrange(start, end);
    lemma_find_from_bounds(s, pr, 0);
    assert(matches_at(s, pr, start));
    let q = find(s, pr).unwrap();
    assert(s.subrange(q, q + nlen) =~= s.subrange(q, q + pr.len()).take(nlen));
    assert(pr.take(nlen) =~= needle);
    if needle.contains('<') {
        let j = choose|j: int| 0 <= j < needle.len() && needle[j] == '<';
        assert(ref_char(needle[j], false));
    }
    if needle.contains('>') {
        let j = choose|j: int| 0 <= j < needle.len() && needle[j] == '>';
        assert(ref_char(needle[j], false));
    }
    lemma_occ_replace(s, q, pr.len() as int, rep, needle, '<', '>');
}

/// The data-source pass, run for at most `fuel` steps: every `needle` reference outside
/// a TODO marker, taken up to the end of its reference characters, has its first
/// occurrence in the text replaced by `rep`, and the scan starts over; a reference
/// inside a marker is passed over. `None` when the steps run out.
pub open spec fn san_data_fuel(s: Seq<char>, needle: Seq<char>, rep: Seq<char>, from: int, fuel: nat) -> Option<Seq<char>>
    decreases fuel,
{
    if fuel == 0 {
        None
    } else if from < 0 || from > s.len() {
        Some(s)
    } else {
        match find_from(s, needle, from) {
            None => Some(s),
            Some(start) => {
                if spec_inside_todo_marker(s, start) {
                    san_data_fuel(s, needle, rep, start + needle.len(), (fuel - 1) as nat)
                } else {
                    let pr = s.subrange(start, ref_end(s, start, false));
                    san_data_fuel(replace_first(s, pr, rep), needle, rep, 0, (fuel - 1) as nat)
                }
            },
        }
    }
}

/// The resource pass, run for at most `fuel` steps: like the data pass, but a reference
/// is replaced only when it holds a `.`; otherwise the scan moves past it.
pub open spec fn san_res_fuel(s: Seq<char>, prefix: Seq<char>, rep: Seq<char>, from: int, fuel: nat) -> Option<Seq<char>>
    decreases fuel,
{
    if fuel == 0 {
        None
    } else if from < 0 || from > s.len() {
        Some(s)
    } else {
        match find_from(s, prefix, from) {
            None => Some(s),
            Some(start) => {
                if spec_inside_todo_marker(s, start) {
                    san_res_fuel(s, prefix, rep, start + prefix.len(), (fuel - 1) as nat)
                } else {
                    let end = ref_end(s, start, false);
                    let cand = s.subrange(start, end);
                    if count_char(cand, '.') >= 1 {
                        san_res_fuel(replace_first(s, cand, rep), prefix, rep, 0, (fuel - 1) as nat)
                    } else {
                        san_res_fuel(s, prefix, rep, end, (fuel - 1) as nat)
                    }
                }
            },
        }
    }
}

/// The data pass ends on `s`.
pub open spec fn san_data_ends(s: Seq<char>, needle: Seq<char>, rep: Seq<char>) -> bool {
    exists|f: nat| san_data_fuel(s, needle, rep, 0, f) is Some
}

/// The text the data pass ends with.
pub open spec fn san_data_result(s: Seq<char>, needle: Seq<char>, rep: Seq<char>) -> Seq<char> {
    let f = choose|f: nat| san_data_fuel(s, needle, rep, 0, f) is Some;
    match san_data_fuel(s, needle, rep, 0, f) {
        Some(r) => r,
        None => s,
    }
}

/// The resource pass ends on `s`.
pub open spec fn san_res_ends(s: Seq<char>, prefix: Seq<char>, rep: Seq<char>) -> bool {
    exists|f: nat| san_res_fuel(s, prefix, rep, 0, f) is Some
}

/// The text the resource pass ends with.
pub open spec fn san_res_result(s: Seq<char>, prefix: Seq<char>, rep: Seq<char>) -> Seq<char> {
    let f = choose|f: nat| san_res_fuel(s, prefix, rep, 0, f) is Some;
    match san_res_fuel(s, prefix, rep, 0, f) {
        Some(r) => r,
        None => s,
    }
}

/// Sanitizing ends: the data pass ends on `s`, and the resource pass on what it gives.
pub open spec fn sanitize_ends(s: Seq<char>, data_prefix: Seq<char>, resource_prefix: Seq<char>, provider_label: Seq<char>) -> bool {
    let needle = "data."@ + data_prefix;
    &&& san_data_ends(s, needle, data_rep(provider_label))
    &&& san_res_ends(san_data_result(s, needle, data_rep(provider_label)), resource_prefix, res_rep(provider_label))
}

/// Runs of the data pass that end give the same text, whatever the fuel.
pub proof fn lemma_san_data_fuel_det(s: Seq<char>, needle: Seq<char>, rep: Seq<char>, from: int, f1: nat, f2: nat)
    requires
        san_data_fuel(s, needle, rep, from, f1) is Some,
        san_data_fuel(s, needle, rep, from, f2) is Some,
    ensures
        san_data_fuel(s, needle, rep, from, f1) == san_data_fuel(s, needle, rep, from, f2),
    decreases f1,
{
    if 0 <= from <= s.len() {
        match find_from(s, needle, from) {
            None => {},
            Some(start) => {
                if spec_inside_todo_marker(s, start) {
                    lemma_san_data_fuel_det(s, needle, rep, start + needle.len(), (f1 - 1) as nat, (f2 - 1) as nat);
                } else {
                    let pr = s.subrange(start, ref_end(s, start, false));
                    lemma_san_data_fuel_det(replace_first(s, pr, rep), needle, rep, 0, (f1 - 1) as nat, (f2 - 1) as nat);
                }
            },
        }
    }
}

/// Runs of the resource pass that end give the same text, whatever the fuel.
pub proof fn lemma_san_res_fuel_det(s: Seq<char>, prefix: Seq<char>, rep: Seq<char>, from: int, f1: nat, f2: nat)
    requires
        san_res_fuel(s, prefix, rep, from, f1) is Some,
        san_res_fuel(s, prefix, rep, from, f2) is Some,
    ensures
        san_res_fuel(s, prefix, rep, from, f1) == san_res_fuel(s, prefix, rep, from, f2),
    decreases f1,
{
    if 0 <= from <= s.len() {
        match find_from(s, prefix, from) {
            None => {},
            Some(start) => {
                if spec_inside_todo_marker(s, start) {
                    lemma_san_res_fuel_det(s, prefix, rep, start + prefix.len(), (f1 - 1) as nat, (f2 - 1) as nat);
                } else {
                    let end = ref_end(s, start, false);
                    let cand = s.subrange(start, end);
                    if count_char(cand, '.') >= 1 {
                        lemma_san_res_fuel_det(replace_first(s, cand, rep), prefix, rep, 0, (f1 - 1) as nat, (f2 - 1) as nat);
                    } else {
                        lemma_san_res_fuel_det(s, prefix, rep, end, (f1 - 1) as nat, (f2 - 1) as nat);
                    }
                }
            },
        }
    }
}

proof fn lemma_san_data_wf_ends(s: Seq<char>, needle: Seq<char>, rep: Seq<char>, from: int) -> (f: nat)
    requires
        san_wf(needle, rep),
        0 <= from <= s.len(),
    ensures
        san_data_fuel(s, needle, rep, from, f) is Some,
    decreases occ(s, needle), s.len() - from,
{
    lemma_find_from_bounds(s, needle, from);
    match find_from(s, needle, from) {
        None => 1,
        Some(start) => {
            lemma_san_step(s, needle, rep, start);
            if spec_inside_todo_marker(s, start) {
                let f = lemma_san_data_wf_ends(s, needle, rep, start + needle.len());
                f + 1
            } else {
                let pr = s.subrange(start, ref_end(s, start, false));
                let f = lemma_san_data_wf_ends(replace_first(s, pr, rep), needle, rep, 0);
                f + 1
            }
        },
    }
}

proof fn lemma_san_res_wf_ends(s: Seq<char>, prefix: Seq<char>, rep: Seq<char>, from: int) -> (f: nat)
    requires
        san_wf(prefix, rep),
        0 <= from <= s.len(),
    ensures
        san_res_fuel(s, prefix, rep, from, f) is Some,
    decreases occ(s, prefix), s.len() - from,
{
    lemma_find_from_bounds(s, prefix, from);
    match find_from(s, prefix, from) {
        None => 1,
        Some(start) => {
            lemma_san_step(s, prefix, rep, start);
            if spec_inside_todo_marker(s, start) {
                let f = lemma_san_res_wf_ends(s, prefix, rep, start + prefix.len());
                f + 1
            } else {
                let end = ref_end(s, start, false);
                let cand = s.subrange(start, end);
                if count_char(cand, '.') >= 1 {
                    let f = lemma_san_res_wf_ends(replace_first(s, cand, rep), prefix, rep, 0);
                    f + 1
                } else {
                    let f = lemma_san_res_wf_ends(s, prefix, rep, end);
                    f + 1
                }
            }
        },
    }
}

/// Sanitizing ends whenever each search text is made of reference characters and never
/// occurs in its replacement marker (as for `aws_` and `azurerm_`).
pub proof fn sanitize_ends_when_markers_lack_prefixes(
    s: Seq<char>,
    data_prefix: Seq<char>,
    resource_prefix: Seq<char>,
    provider_label: Seq<char>,
)
    requires
        san_wf("data."@ + data_prefix, data_rep(provider_label)),
        san_wf(resource_prefix, res_rep(provider_label)),
    ensures
        sanitize_ends(s, data_prefix, resource_prefix, provider_label),
{
    let needle = "data."@ + data_prefix;
    let f = lemma_san_data_wf_ends(s, needle, data_rep(provider_label), 0);
    let d = san_data_result(s, needle, data_rep(provider_label));
    let g = lemma_san_res_wf_ends(d, resource_prefix, res_rep(provider_label), 0);
    assert(san_data_ends(s, needle, data_rep(provider_label)));
    assert(san_res_ends(d, resource_prefix, res_rep(provider_label)));
}

/// Occurrences of `needle` that overlap one inside a marker are inside it too.
proof fn lemma_overlap_inside(s: Seq<char>, needle: Seq<char>, start: int, p: int)
    requires
        !needle.contains('>'),
        matches_at(s, needle, start),
        spec_inside_todo_marker(s, start),
        start <= p <= start + needle.len(),
    ensures
        spec_inside_todo_marker(s, p),
{
    assert forall|j: int| start <= j < p implies s[j] != '>' by {
        assert(s[j] == s.subrange(start, start + needle.len())[j - start]);
        assert(needle[j - start] == s[j]);
    }
    lemma_inside_marker_extends(s, start, p);
}

proof fn lemma_san_data_marked(s: Seq<char>, needle: Seq<char>, rep: Seq<char>, from: int, fuel: nat)
    requires
        !needle.contains('>'),
        0 <= from <= s.len(),
        san_data_fuel(s, needle, rep, from, fuel) is Some,
        forall|p: int|
            0 <= p < from && matches_at(s, needle, p) ==> spec_inside_todo_marker(s, p),
    ensures
        forall|p: int|
            matches_at(san_data_fuel(s, needle, rep, from, fuel)->Some_0, needle, p)
                ==> spec_inside_todo_marker(san_data_fuel(s, needle, rep, from, fuel)->Some_0, p),
    decreases fuel,
{
    lemma_find_from_bounds(s, needle, from);
    match find_from(s, needle, from) {
        None => {
            assert(san_data_fuel(s, needle, rep, from, fuel) == Some(s));
        },
        Some(start) => {
            if spec_inside_todo_marker(s, start) {
                let nf = start + needle.len();
                assert forall|p: int|
                    0 <= p < nf && matches_at(s, needle, p) implies spec_inside_todo_marker(
                    s,
                    p,
                ) by {
                    if p >= from && p > start {
                        lemma_overlap_inside(s, needle, start, p);
                    }
                }
                lemma_san_data_marked(s, needle, rep, nf, (fuel - 1) as nat);
            } else {
                let pr = s.subrange(start, ref_end(s, start, false));
                lemma_san_data_marked(replace_first(s, pr, rep), needle, rep, 0, (fuel - 1) as nat);
            }
        },
    }
}

/// After the data-source pass, every remaining `data.{data_prefix}` reference lies
/// inside an open TODO marker (for a prefix without `>`).
pub proof fn data_pass_leaves_every_data_ref_marked(
    s: Seq<char>,
    data_prefix: Seq<char>,
    provider_label: Seq<char>,
)
    requires
        san_data_ends(s, "data."@ + data_prefix, data_rep(provider_label)),
        !data_prefix.contains('>'),
    ensures
        ({
            let needle = "data."@ + data_prefix;
            let d = san_data_result(s, needle, data_rep(provider_label));
            forall|p: int| matches_at(d, needle, p) ==> spec_inside_todo_marker(d, p)
        }),
{
    let needle = "data."@ + data_prefix;
    let rep = data_rep(provider_label);
    reveal_strlit("data.");
    assert(!needle.contains('>')) by {
        if needle.contains('>') {
            let j = choose|j: int| 0 <= j < needle.len() && needle[j] == '>';
            if j >= 5 {
                assert(data_prefix[j - 5] == '>');
            }
        }
    }
    let f = choose|f: nat| san_data_fuel(s, needle, rep, 0, f) is Some;
    lemma_san_data_marked(s, needle, rep, 0, f);
}

/// A reference at `p` that the resource pass leaves alone: it lies inside an open
/// TODO marker, or it holds no `.` (a bare type name).
pub open spec fn res_ref_settled(s: Seq<char>, p: int) -> bool {
    spec_inside_todo_marker(s, p) || count_char(s.subrange(p, ref_end(s, p, false)), '.') == 0
}

/// Inside a run of reference characters, every position runs to the same end.
proof fn lemma_ref_end_same(s: Seq<char>, i: int, p: int)
    requires
        0 <= i <= p <= ref_end(s, i, false),
    ensures
        ref_end(s, p, false) == ref_end(s, i, false),
    decreases p - i,
{
    if i < p {
        lemma_ref_end_same(s, i + 1, p);
    }
}

proof fn lemma_san_res_settled(s: Seq<char>, prefix: Seq<char>, rep: Seq<char>, from: int, fuel: nat)
    requires
        !prefix.contains('>'),
        0 <= from <= s.len(),
        san_res_fuel(s, prefix, rep, from, fuel) is Some,
        forall|p: int| 0 <= p < from && matches_at(s, prefix, p) ==> res_ref_settled(s, p),
    ensures
        forall|p: int|
            matches_at(san_res_fuel(s, prefix, rep, from, fuel)->Some_0, prefix, p) ==> res_ref_settled(
                san_res_fuel(s, prefix, rep, from, fuel)->Some_0,
                p,
            ),
    decreases fuel,
{
    lemma_find_from_bounds(s, prefix, from);
    match find_from(s, prefix, from) {
        None => {
            assert(san_res_fuel(s, prefix, rep, from, fuel) == Some(s));
        },
        Some(start) => {
            lemma_ref_end_le(s, start, false);
            let end = ref_end(s, start, false);
            let cand = s.subrange(start, end);
            if spec_inside_todo_marker(s, start) {
                let nf = start + prefix.len();
                assert forall|p: int|
                    0 <= p < nf && matches_at(s, prefix, p) implies res_ref_settled(s, p) by {
                    if p >= from && p > start {
                        lemma_overlap_inside(s, prefix, start, p);
                    }
                }
                lemma_san_res_settled(s, prefix, rep, nf, (fuel - 1) as nat);
            } else if count_char(cand, '.') >= 1 {
                lemma_san_res_settled(replace_first(s, cand, rep), prefix, rep, 0, (fuel - 1) as nat);
            } else {
                assert forall|p: int|
                    0 <= p < end && matches_at(s, prefix, p) implies res_ref_settled(s, p) by {
                    if p >= from && p >= start {
                        lemma_ref_end_same(s, start, p);
                        lemma_count_char_subrange(cand, p - start, end - start, '.');
                        assert(cand.subrange(p - start, end - start) =~= s.subrange(p, end));
                    }
                }
                lemma_san_res_settled(s, prefix, rep, end, (fuel - 1) as nat);
            }
        },
    }
}

/// After the resource pass, every remaining `resource_prefix` reference either lies
/// inside an open TODO marker or holds no `.` (for a prefix without `>`).
pub proof fn resource_pass_leaves_dotted_refs_marked(
    d: Seq<char>,
    resource_prefix: Seq<char>,
    provider_label: Seq<char>,
)
    requires
        san_res_ends(d, resource_prefix, res_rep(provider_label)),
        !resource_prefix.contains('>'),
    ensures
        ({
            let r = san_res_result(d, resource_prefix, res_rep(provider_label));
            forall|p: int| matches_at(r, resource_prefix, p) ==> res_ref_settled(r, p)
        }),
{
    let rep = res_rep(provider_label);
    let f = choose|f: nat| san_res_fuel(d, resource_prefix, rep, 0, f) is Some;
    lemma_san_res_settled(d, resource_prefix, rep, 0, f);
}

/// Provider references that leaked into output HCL, replaced by TODO markers, then
/// TODO interpolations unwrapped.
pub open spec fn spec_sanitize_provider_refs(
    s: Seq<char>,
    data_prefix: Seq<char>,
    resource_prefix: Seq<char>,
    provider_label: Seq<char>,
) -> Seq<char> {
    let d = san_data_result(s, "data."@ + data_prefix, data_rep(provider_label));
    spec_remove_todo_interpolations(san_res_result(d, resource_prefix, res_rep(provider_label)))
}

/// Sanitized text holds no interpolated TODO: no `${`, optional spaces and `<TODO:`.
pub proof fn sanitized_text_has_no_todo_interpolation(
    s: Seq<char>,
    data_prefix: Seq<char>,
    resource_prefix: Seq<char>,
    provider_label: Seq<char>,
)
    ensures
        find_todo_interp(spec_sanitize_provider_refs(s, data_prefix, resource_prefix, provider_label), 0) is None,
{
    let d = san_data_result(s, "data."@ + data_prefix, data_rep(provider_label));
    todo_interpolations_removed(san_res_result(d, resource_prefix, res_rep(provider_label)));
}

/// A replacement that lacks a character of the search text cannot contain it.
pub proof fn lemma_no_match_missing_char(needle: Seq<char>, rep: Seq<char>, k: int)
    requires
        0 <= k < needle.len(),
        !rep.contains(needle[k]),
    ensures
        forall|j: int| 0 <= j ==> !matches_at(rep, needle, j),
{
    assert forall|j: int| 0 <= j implies !matches_at(rep, needle, j) by {
        if matches_at(rep, needle, j) {
            assert(rep[j + k] == rep.subrange(j, j + needle.len())[k]);
        }
    }
}

fn label_rep(label: &str, tail: &str) -> (r: Vec<char>)
    ensures
        r@ == "<TODO: remove "@ + label@ + tail@,
{
    let mut t = String::from_str("<TODO: remove ");
    push_str(&mut t, label);
    push_str(&mut t, tail);
    chars_of(t.as_str())
}


/// Sanitize provider-specific references that leaked into output HCL.
///
/// Replaces `data.{data_prefix}*` data source references and `{resource_prefix}*` resource
/// references (with at least one dot) with `<TODO: ...>` markers. Skips references already
/// inside a `<TODO: ...>` marker.
///
/// `provider_label` is used in the TODO text (e.g. "AWS" or "Azure").
///
/// Each replacement rewrites the first occurrence of the reference text and starts the
/// scan over, so the scan need not end (for instance when the marker text puts a `>`
/// before a copy of the reference); it is called on texts where it does.
pub fn sanitize_provider_refs(
    s: String,
    data_prefix: &str,
    resource_prefix: &str,
    provider_label: &str,
) -> (r: String)
    requires
        sanitize_ends(s@, data_prefix@, resource_prefix@, provider_label@),
    ensures
        r@ == spec_sanitize_provider_refs(s@, data_prefix@, resource_prefix@, provider_label@),
{
    let mut nd = String::from_str("data.");
    push_str(&mut nd, data_prefix);
    let needle = chars_of(nd.as_str());
    let rep1 = label_rep(provider_label, " data source ref>");
    let ghost f0 = choose|f: nat| san_data_fuel(s@, needle@, rep1@, 0, f) is Some;
    let ghost t0 = san_data_fuel(s@, needle@, rep1@, 0, f0)->Some_0;
    let ghost mut fuel: nat = f0;
    let mut cur = chars_of(s.as_str());
    let mut from: usize = 0;
    loop
        invariant
            from <= cur@.len(),
            san_data_fuel(cur@, needle@, rep1@, from as int, fuel) == Some(t0),
        ensures
            cur@ == t0,
        decreases fuel,
    {
        match find_from_exec(&cur, &needle, from) {
            None => {
                break;
            },
            Some(start) => {
                proof {
                    lemma_find_from_bounds(cur@, needle@, from as int);
                }
                if inside_todo_marker(&cur, start) {
                    from = start + needle.len();
                } else {
                    let end = ref_end_exec(&cur, start, false);
                    let pr = slice_of(&cur, start, end);
                    cur = replace_first_v(&cur, &pr, &rep1);
                    from = 0;
                }
                proof {
                    fuel = (fuel - 1) as nat;
                }
            },
        }
    }
    assert(cur@ == san_data_result(s@, needle@, rep1@));
    let rp = chars_of(resource_prefix);
    let rep2 = label_rep(provider_label, " resource ref>");
    let ghost d = cur@;
    let ghost g0 = choose|f: nat| san_res_fuel(d, rp@, rep2@, 0, f) is Some;
    let ghost t1 = san_res_fuel(d, rp@, rep2@, 0, g0)->Some_0;
    proof {
        fuel = g0;
    }
    from = 0;
    loop
        invariant
            from <= cur@.len(),
            san_res_fuel(cur@, rp@, rep2@, from as int, fuel) == Some(t1),
        ensures
            cur@ == t1,
        decreases fuel,
    {
        match find_from_exec(&cur, &rp, from) {
            None => {
                break;
            },
            Some(start) => {
                proof {
                    lemma_find_from_bounds(cur@, rp@, from as int);
                }
                if inside_todo_marker(&cur, start) {
                    from = start + rp.len();
                } else {
                    let end = ref_end_exec(&cur, start, false);
                    let cand = slice_of(&cur, start, end);
                    if count_char_v(&cand, '.') >= 1 {
                        cur = replace_first_v(&cur, &cand, &rep2);
                        from = 0;
                    } else {
                        from = end;
                    }
                }
                proof {
                    fuel = (fuel - 1) as nat;
                }
            },
        }
    }
    remove_todo_interpolations(string_of(&cur))
}

proof fn lemma_no_char(s: Seq<char>, c: char)
    requires
        forall|i: int| 0 <= i < s.len() ==> s[i] != c,
    ensures
        !s.contains(c),
{
}

proof fn lemma_marker_text()
    ensures
        !"<TODO: remove "@.contains('.'),
        !"<TODO: remove "@.contains('_'),
        !" data source ref>"@.contains('.'),
        !" data source ref>"@.contains('_'),
        !" resource ref>"@.contains('.'),
        !" resource ref>"@.contains('_'),
        "<TODO: remove "@.len() > 0,
        "<TODO: remove "@[0] == '<',
        " data source ref>"@.len() > 0,
        " data source ref>"@.last() == '>',
        " resource ref>"@.len() > 0,
        " resource ref>"@.last() == '>',
{
    reveal_strlit("<TODO: remove ");
    reveal_strlit(" data source ref>");
    reveal_strlit(" resource ref>");
    lemma_no_char("<TODO: remove "@, '.');
    lemma_no_char("<TODO: remove "@, '_');
    lemma_no_char(" data source ref>"@, '.');
    lemma_no_char(" data source ref>"@, '_');
    lemma_no_char(" resource ref>"@, '.');
    lemma_no_char(" resource ref>"@, '_');
}

proof fn lemma_concat3_lacks(a: Seq<char>, b: Seq<char>, c: Seq<char>, x: char)
    requires
        !a.contains(x),
        !b.contains(x),
        !c.contains(x),
    ensures
        !(a + b + c).contains(x),
{
    if (a + b + c).contains(x) {
        let i = choose|i: int| 0 <= i < (a + b + c).len() && (a + b + c)[i] == x;
        if i < a.len() {
            assert(a[i] == x);
        } else if i < a.len() + b.len() {
            assert(b[i - a.len()] == x);
        } else {
            assert(c[i - a.len() - b.len()] == x);
        }
    }
}

/// The markers that name a provider label without `.` or `_` hold neither
/// `data.PREFIX` nor a resource prefix with `_`, so the sanitizing passes end.
pub proof fn lemma_san_wf_for(data_prefix: Seq<char>, resource_prefix: Seq<char>, label: Seq<char>, k: int)
    requires
        forall|j: int| 0 <= j < data_prefix.len() ==> ref_char(#[trigger] data_prefix[j], false),
        forall|j: int| 0 <= j < resource_prefix.len() ==> ref_char(#[trigger] resource_prefix[j], false),
        0 <= k < resource_prefix.len(),
        resource_prefix[k] == '_',
        !label.contains('.'),
        !label.contains('_'),
    ensures
        san_wf("data."@ + data_prefix, data_rep(label)),
        san_wf(resource_prefix, res_rep(label)),
{
    lemma_marker_text();
    reveal_strlit("data.");
    let n = "data."@ + data_prefix;
    assert forall|j: int| 0 <= j < n.len() implies ref_char(#[trigger] n[j], false) by {
        if j >= 5 {
            assert(n[j] == data_prefix[j - 5]);
        }
    }
    assert(n[4] == '.');
    lemma_concat3_lacks("<TODO: remove "@, label, " data source ref>"@, '.');
    lemma_no_match_missing_char(n, data_rep(label), 4);
    lemma_concat3_lacks("<TODO: remove "@, label, " resource ref>"@, '_');
    lemma_no_match_missing_char(resource_prefix, res_rep(label), k);
    assert(data_rep(label)[0] == '<');
    assert(data_rep(label).last() == " data source ref>"@.last());
    assert(res_rep(label)[0] == '<');
    assert(res_rep(label).last() == " resource ref>"@.last());
}

/// The block of rule `i` is among the first `n` rule lines.
proof fn lemma_rule_lines_hold(rules: Seq<(Seq<char>, i32, i32, Seq<char>, Option<Seq<char>>, bool)>, any_proto: Seq<char>, n: int, i: int) -> (k: int)
    requires
        0 <= i < n <= rules.len(),
    ensures
        matches_at(fw_rule_lines(rules, any_proto, n), spec_build_firewall_rule(rules[i].0, rules[i].1, rules[i].2, rules[i].3, rules[i].4, rules[i].5 || rules[i].3 == any_proto), k),
    decreases n,
{
    let b = spec_build_firewall_rule(rules[i].0, rules[i].1, rules[i].2, rules[i].3, rules[i].4, rules[i].5 || rules[i].3 == any_proto);
    let prev = fw_rule_lines(rules, any_proto, n - 1);
    let cur = fw_rule_lines(rules, any_proto, n);
    if i == n - 1 {
        assert(cur.subrange(prev.len() as int, (prev.len() + b.len()) as int) =~= b);
        assert(matches_at(cur, b, prev.len() as int));
        prev.len() as int
    } else {
        let k = lemma_rule_lines_hold(rules, any_proto, n - 1, i);
        assert(cur.subrange(k, k + b.len()) =~= prev.subrange(k, k + b.len()));
        assert(matches_at(cur, b, k));
        k
    }
}

/// A firewall always lets all outbound traffic out: the block of a rule admitting all
/// outbound traffic is among its rule blocks, or, when no rule does, the catch-all
/// outbound rule ends them.
pub proof fn firewall_always_allows_outbound(rules: Seq<(Seq<char>, i32, i32, Seq<char>, Option<Seq<char>>, bool)>, any_proto: Seq<char>)
    ensures
        !has_out_all(rules, rules.len() as int) ==> ends_with(spec_firewall_rule_blocks(rules, any_proto), FIREWALL_CATCHALL_EGRESS@),
        has_out_all(rules, rules.len() as int) ==> exists|i: int| 0 <= i < rules.len() && rules[i].0 == "out"@ && rules[i].5
            && crate::text::contains(spec_firewall_rule_blocks(rules, any_proto), spec_build_firewall_rule(rules[i].0, rules[i].1, rules[i].2, rules[i].3, rules[i].4, true)),
{
    let n = rules.len() as int;
    let s = spec_firewall_rule_blocks(rules, any_proto);
    let l = fw_rule_lines(rules, any_proto, n);
    if !has_out_all(rules, n) {
        let c = FIREWALL_CATCHALL_EGRESS@;
        assert(s.subrange(s.len() - c.len(), s.len() as int) =~= c);
    } else {
        let i = lemma_out_all_index(rules, n);
        let k = lemma_rule_lines_hold(rules, any_proto, n, i);
        let b = spec_build_firewall_rule(rules[i].0, rules[i].1, rules[i].2, rules[i].3, rules[i].4, true);
        assert(s =~= l);
        assert(matches_at(s, b, k));
        lemma_find_from_bounds(s, b, 0);
    }
}

proof fn lemma_out_all_index(rules: Seq<(Seq<char>, i32, i32, Seq<char>, Option<Seq<char>>, bool)>, n: int) -> (i: int)
    requires
        has_out_all(rules, n),
    ensures
        0 <= i < n,
        rules[i].0 == "out"@ && rules[i].5,
    decreases n,
{
    if rules[n - 1].0 == "out"@ && rules[n - 1].5 {
        n - 1
    } else {
        lemma_out_all_index(rules, n - 1)
    }
}

} // verus!
