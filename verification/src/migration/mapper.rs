//! Provider-agnostic resource mapping: a resource goes to its provider's mapper, and the
//! result carries the resource's source HCL.
use vstd::prelude::*;

use crate::migration::providers::aws::mapper::{spec_aws_map, AwsResourceMapper};
use crate::migration::providers::azure::generator_support::appgw_blocks_ok;
use crate::migration::providers::azure::mapper::{spec_azure_map, AzureResourceMapper};
use crate::migration::types::{new_result, push_note, result_model, MigrationResult, MigrationStatus, ResultModel};
use crate::terraform::types::TerraformResource;
use crate::text::{chars_of, push_str, starts_with, starts_with_exec, string_of};

verus! {

/// Per-provider resource mapping.
pub trait ResourceMapper {
    /// The resources the mapper can be handed.
    spec fn accepts(&self, res: TerraformResource) -> bool;

    /// The mapping of `res`.
    spec fn mapped(&self, res: TerraformResource) -> ResultModel;

    /// Map a single source resource to an UpCloud [`MigrationResult`]; resources with no
    /// direct equivalent get an unsupported or partial status.
    fn map(&self, res: &TerraformResource) -> (r: MigrationResult)
        requires
            self.accepts(*res),
        ensures
            r@ == self.mapped(*res),
    ;
}

/// `m` with the source HCL attached.
pub open spec fn with_source(m: ResultModel, hcl: Seq<char>) -> ResultModel {
    ResultModel { source_hcl: Some(hcl), ..m }
}

/// Map `res` with `mapper` and attach its source HCL.
pub fn map_resource_with<M: ResourceMapper>(mapper: &M, res: &TerraformResource) -> (r: MigrationResult)
    requires
        mapper.accepts(*res),
    ensures
        r@ == with_source(mapper.mapped(*res), res.raw_hcl@),
{
    let mut result = mapper.map(res);
    result.source_hcl = Some(string_of(&chars_of(res.raw_hcl.as_str())));
    result
}

/// The resources [`map_resource`] can map: every one but an application gateway whose
/// source has an unclosed block.
pub open spec fn mappable(res: TerraformResource) -> bool {
    res.resource_type@ == "azurerm_application_gateway"@ ==> appgw_blocks_ok(res.raw_hcl@)
}

/// The mapping of any resource, source HCL attached: AWS (`aws_`) and Azure (`azurerm_`)
/// types go to their provider's mapper; other cloud types (`google_`) are unknown; every
/// other resource is passed through unchanged.
pub open spec fn spec_map_resource(res: TerraformResource) -> ResultModel {
    let rt = res.resource_type@;
    if starts_with(rt, "aws_"@) {
        with_source(spec_aws_map(res), res.raw_hcl@)
    } else if starts_with(rt, "azurerm_"@) {
        with_source(spec_azure_map(res), res.raw_hcl@)
    } else if starts_with(rt, "google_"@) {
        with_source(
            result_model(res, MigrationStatus::Unknown, "(unknown provider)"@, None, None, None,
                seq!["Provider not recognized for resource type '"@ + rt + "'"@]),
            res.raw_hcl@,
        )
    } else {
        with_source(
            result_model(res, MigrationStatus::Passthrough, rt, Some(res.raw_hcl@), None, None,
                seq!["Non-cloud-provider resource, kept as is."@]),
            res.raw_hcl@,
        )
    }
}

/// Route a resource to the mapper of its provider, detected from its type's prefix, and
/// attach its source HCL.
pub fn map_resource(res: &TerraformResource) -> (r: MigrationResult)
    requires
        mappable(*res),
    ensures
        r@ == spec_map_resource(*res),
{
    let rt = chars_of(res.resource_type.as_str());
    if starts_with_exec(&rt, "aws_") {
        map_resource_with(&AwsResourceMapper, res)
    } else if starts_with_exec(&rt, "azurerm_") {
        map_resource_with(&AzureResourceMapper, res)
    } else {
        let mut result = if starts_with_exec(&rt, "google_") {
            let mut n = String::from_str("Provider not recognized for resource type '");
            push_str(&mut n, res.resource_type.as_str());
            push_str(&mut n, "'");
            let mut notes: Vec<String> = Vec::new();
            push_note(&mut notes, n);
            new_result(res, MigrationStatus::Unknown, "(unknown provider)", None, None, None, notes)
        } else {
            let mut notes: Vec<String> = Vec::new();
            push_note(&mut notes, String::from_str("Non-cloud-provider resource, kept as is."));
            let hcl = string_of(&chars_of(res.raw_hcl.as_str()));
            new_result(res, MigrationStatus::Passthrough, res.resource_type.as_str(), Some(hcl), None, None, notes)
        };
        result.source_hcl = Some(string_of(&chars_of(res.raw_hcl.as_str())));
        result
    }
}

/// A resource of no cloud provider (its type has none of the `aws_`, `azurerm_` and
/// `google_` prefixes) is carried over as it is: a passthrough result whose HCL and
/// source are the resource's own text, under the resource's own type.
pub proof fn non_cloud_resource_kept_as_is(res: TerraformResource)
    requires
        !starts_with(res.resource_type@, "aws_"@),
        !starts_with(res.resource_type@, "azurerm_"@),
        !starts_with(res.resource_type@, "google_"@),
    ensures
        spec_map_resource(res).status == MigrationStatus::Passthrough,
        spec_map_resource(res).upcloud_hcl == Some(res.raw_hcl@),
        spec_map_resource(res).source_hcl == Some(res.raw_hcl@),
        spec_map_resource(res).upcloud_type == res.resource_type@,
        spec_map_resource(res).resource_name == res.name@,
{
}

} // verus!
