pub mod aws;
pub mod azure;
pub mod shared;
pub mod scan;
pub mod hcl_blocks;

use vstd::prelude::*;

use crate::migration::types::MigrationResult;
use crate::text::{chars_of, starts_with, starts_with_exec};

verus! {

/// Roles that source resources play in cross-reference building, so that the generator
/// can select results by meaning rather than by provider-specific type names.
#[derive(Debug, Clone, Copy, PartialEq, Eq, Structural)]
pub enum ResourceRole {
    /// Compute instance (e.g. aws_instance, azurerm_virtual_machine)
    ComputeInstance,
    /// SSH key pair (e.g. aws_key_pair)
    KeyPair,
    /// Database/cache parameter group (e.g. aws_db_parameter_group)
    ParameterGroup,
    /// Database/cache subnet group (e.g. aws_db_subnet_group)
    SubnetGroup,
    /// Volume attachment (e.g. aws_volume_attachment)
    VolumeAttachment,
    /// Load balancer target group attachment
    LbTargetGroupAttachment,
    /// Load balancer listener
    LbListener,
    /// No special cross-reference role
    Other,
}

/// An optional string, as characters.
pub open spec fn opt_str_view(o: Option<&str>) -> Option<Seq<char>> {
    match o {
        Some(s) => Some(s@),
        None => None,
    }
}

/// An optional pair of strings, as characters.
pub open spec fn opt_pair_view(o: Option<(String, String)>) -> Option<(Seq<char>, Seq<char>)> {
    match o {
        Some(p) => Some((p.0@, p.1@)),
        None => None,
    }
}

/// What the generator needs to know of a source cloud provider: its names, how its
/// resource types play the cross-reference roles, how references are read from its source
/// blocks, and how its leftover references are cleaned from the output. Each spec function
/// names what the method of the same purpose returns.
pub trait SourceProvider {
    spec fn spec_display_name(&self) -> Seq<char>;
    spec fn spec_prefix(&self) -> Seq<char>;
    spec fn spec_role(&self, resource_type: Seq<char>) -> ResourceRole;
    spec fn spec_volume_type(&self) -> Seq<char>;
    spec fn spec_security_refs(&self, hcl: Seq<char>) -> Seq<Seq<char>>;
    spec fn spec_instance_subnet(&self, hcl: Seq<char>) -> Option<Seq<char>>;
    spec fn spec_nic_type(&self) -> Option<Seq<char>>;
    spec fn spec_nic_refs(&self, hcl: Seq<char>) -> Seq<Seq<char>>;
    spec fn spec_nic_subnet(&self, hcl: Seq<char>) -> Option<Seq<char>>;
    spec fn spec_subnet_nsg_association_type(&self) -> Option<Seq<char>>;
    spec fn spec_subnet_nsg(&self, hcl: Seq<char>) -> Option<(Seq<char>, Seq<char>)>;
    spec fn spec_parameters(&self, hcl: Seq<char>) -> Seq<(Seq<char>, Seq<char>)>;
    spec fn spec_valid_db_property(&self, name: Seq<char>) -> bool;
    spec fn spec_subnet_group_subnets(&self, hcl: Seq<char>) -> Seq<Seq<char>>;
    spec fn spec_tg_server(&self, hcl: Seq<char>) -> Option<(Seq<char>, Seq<char>)>;
    spec fn spec_listener_tg(&self, hcl: Seq<char>) -> Option<Seq<char>>;
    spec fn spec_listener_lb(&self, hcl: Seq<char>) -> Option<Seq<char>>;
    spec fn spec_probe_type(&self) -> Option<Seq<char>>;
    spec fn spec_rule_probe(&self, hcl: Seq<char>) -> Option<(Seq<char>, Seq<char>)>;
    spec fn spec_probe_props(&self, hcl: Seq<char>) -> Seq<char>;
    spec fn spec_ssh_key_placeholder(&self, key_name: Seq<char>) -> Seq<char>;
    spec fn spec_parameter_group_todo(&self, group_name: Seq<char>) -> Seq<char>;
    spec fn spec_sanitize(&self, hcl: Seq<char>) -> Seq<char>;
    spec fn spec_rewrite_ok(&self, hcl: Seq<char>) -> bool;
    spec fn spec_rewrite(&self, hcl: Seq<char>) -> Seq<char>;

    /// Display name for comments and logs (e.g. "AWS", "Azure").
    fn display_name(&self) -> (r: &'static str)
        ensures
            r@ == self.spec_display_name(),
    ;

    /// Resource type prefix (e.g. "aws_", "azurerm_").
    fn resource_type_prefix(&self) -> (r: &'static str)
        ensures
            r@ == self.spec_prefix(),
    ;

    /// Classify a source resource type by its cross-reference role.
    fn resource_role(&self, resource_type: &str) -> (r: ResourceRole)
        ensures
            r == self.spec_role(resource_type@),
    ;

    /// The source resource type of block-storage volumes.
    fn volume_resource_type(&self) -> (r: &'static str)
        ensures
            r@ == self.spec_volume_type(),
    ;

    /// Security group / firewall names referenced by a compute instance's source.
    fn extract_security_refs_from_instance(&self, hcl: &str) -> (r: Vec<String>)
        ensures
            crate::migration::types::strs_view(r@) == self.spec_security_refs(hcl@),
    ;

    /// The subnet named by a compute instance's source.
    fn extract_subnet_from_instance(&self, hcl: &str) -> (r: Option<String>)
        ensures
            crate::migration::types::opt_view(r) == self.spec_instance_subnet(hcl@),
    ;

    /// The resource type of standalone network interfaces, where the provider has them.
    fn nic_resource_type(&self) -> (r: Option<&'static str>)
        ensures
            opt_str_view(r) == self.spec_nic_type(),
    ;

    /// Network interfaces referenced by a compute instance's source.
    fn extract_nic_refs_from_instance(&self, hcl: &str) -> (r: Vec<String>)
        ensures
            crate::migration::types::strs_view(r@) == self.spec_nic_refs(hcl@),
    ;

    /// The subnet named by a network interface's source.
    fn extract_subnet_from_nic(&self, hcl: &str) -> (r: Option<String>)
        ensures
            crate::migration::types::opt_view(r) == self.spec_nic_subnet(hcl@),
    ;

    /// The resource type associating a subnet with a security group, where there is one.
    fn subnet_nsg_association_type(&self) -> (r: Option<&'static str>)
        ensures
            opt_str_view(r) == self.spec_subnet_nsg_association_type(),
    ;

    /// `(subnet, security group)` of a subnet–security group association's source.
    fn extract_nsg_from_subnet_association(&self, hcl: &str) -> (r: Option<(String, String)>)
        ensures
            opt_pair_view(r) == self.spec_subnet_nsg(hcl@),
    ;

    /// Parameter key-value pairs of a parameter group's source.
    fn extract_parameter_blocks(&self, hcl: &str) -> (r: Vec<(String, String)>)
        ensures
            crate::migration::providers::aws::database::params_view(r@) == self.spec_parameters(hcl@),
    ;

    /// Whether a parameter name is a property of the target managed database.
    fn is_valid_db_property(&self, name: &str) -> (r: bool)
        ensures
            r == self.spec_valid_db_property(name@),
    ;

    /// Subnet names of a subnet group's source.
    fn extract_subnet_names_from_subnet_group(&self, hcl: &str) -> (r: Vec<String>)
        ensures
            crate::migration::types::strs_view(r@) == self.spec_subnet_group_subnets(hcl@),
    ;

    /// `(target group, server)` of a target group attachment's source.
    fn extract_tg_server_from_attachment(&self, hcl: &str) -> (r: Option<(String, String)>)
        ensures
            opt_pair_view(r) == self.spec_tg_server(hcl@),
    ;

    /// The target group of a listener's source.
    fn extract_tg_from_listener(&self, hcl: &str) -> (r: Option<String>)
        ensures
            crate::migration::types::opt_view(r) == self.spec_listener_tg(hcl@),
    ;

    /// The load balancer of a listener's source.
    fn extract_lb_name_from_listener(&self, hcl: &str) -> (r: Option<String>)
        ensures
            crate::migration::types::opt_view(r) == self.spec_listener_lb(hcl@),
    ;

    /// The resource type of load balancer health probes, where the provider has them.
    fn lb_probe_resource_type(&self) -> (r: Option<&'static str>)
        ensures
            opt_str_view(r) == self.spec_probe_type(),
    ;

    /// `(backend pool, probe)` of a load balancing rule's source.
    fn extract_probe_from_lb_rule(&self, hcl: &str) -> (r: Option<(String, String)>)
        ensures
            opt_pair_view(r) == self.spec_rule_probe(hcl@),
    ;

    /// Health check property lines of a probe's source.
    fn extract_probe_health_check_props(&self, hcl: &str) -> (r: String)
        ensures
            r@ == self.spec_probe_props(hcl@),
    ;

    /// The SSH key placeholder for a key pair name.
    fn ssh_key_placeholder(&self, key_name: &str) -> (r: String)
        ensures
            r@ == self.spec_ssh_key_placeholder(key_name@),
            r@.len() > 0,
    ;

    /// TODO text for an unresolved parameter group reference.
    fn parameter_group_todo_text(&self, group_name: &str) -> (r: String)
        ensures
            r@ == self.spec_parameter_group_todo(group_name@),
    ;

    /// Remove leftover source provider references from generated HCL.
    fn sanitize_source_refs(&self, hcl: String) -> (r: String)
        ensures
            r@ == self.spec_sanitize(hcl@),
    ;

    /// Rewrite source provider references in output/locals blocks to UpCloud equivalents.
    fn rewrite_output_refs(&self, hcl: &str) -> (r: String)
        requires
            self.spec_rewrite_ok(hcl@),
        ensures
            r@ == self.spec_rewrite(hcl@),
    ;
}

/// The source cloud provider of a set of migration results.
#[derive(Debug, Clone, Copy, PartialEq, Eq, Structural)]
pub enum DetectedProvider {
    Aws,
    Azure,
}

/// Some result's resource type starts with `prefix`.
pub open spec fn any_type_with_prefix(results: Seq<MigrationResult>, prefix: Seq<char>) -> bool {
    exists|i: int| 0 <= i < results.len() && starts_with(#[trigger] results[i].resource_type@, prefix)
}

/// The provider of the results: AWS when some type has the `aws_` prefix, else Azure when
/// some type has the `azurerm_` prefix, else AWS.
pub open spec fn spec_detect_provider(results: Seq<MigrationResult>) -> DetectedProvider {
    if any_type_with_prefix(results, "aws_"@) {
        DetectedProvider::Aws
    } else if any_type_with_prefix(results, "azurerm_"@) {
        DetectedProvider::Azure
    } else {
        DetectedProvider::Aws
    }
}

fn has_type_prefix(results: &[MigrationResult], prefix: &str) -> (r: bool)
    ensures
        r == any_type_with_prefix(results@, prefix@),
{
    let mut i: usize = 0;
    while i < results.len()
        invariant
            i <= results@.len(),
            forall|j: int| 0 <= j < i ==> !starts_with(#[trigger] results@[j].resource_type@, prefix@),
        decreases results@.len() - i,
    {
        if starts_with_exec(&chars_of(results[i].resource_type.as_str()), prefix) {
            return true;
        }
        i += 1;
    }
    false
}

/// Detect the source cloud provider from migration results, falling back to AWS when no
/// provider-specific prefix is recognized.
pub fn detect_provider(results: &[MigrationResult]) -> (r: DetectedProvider)
    ensures
        r == spec_detect_provider(results@),
{
    if has_type_prefix(results, "aws_") {
        DetectedProvider::Aws
    } else if has_type_prefix(results, "azurerm_") {
        DetectedProvider::Azure
    } else {
        DetectedProvider::Aws
    }
}

} // verus!
