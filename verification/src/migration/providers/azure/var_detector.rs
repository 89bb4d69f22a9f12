//! Azure variable detection — recognises Azure VM sizes and Azure regions.
use vstd::prelude::*;

use crate::migration::providers::azure::compute::{azure_vm_size_to_upcloud_plan, spec_azure_vm_plan};
use crate::migration::types::strs_view;
use crate::migration::var_detector::{
    attrs_contain, cap10, collect_candidates, concat3, conv_views, opt_conv_view, opt_str_view,
    opt_to_owned, some_views, VarConversion, VarConversionModel, VarDetector, VarKind,
};
use crate::text::{chars_of, contains, contains_str, eq_str, spec_to_lowercase, to_lowercase};

use crate::migration::providers::azure::compute::{azure_zone_default_table, spec_azure_zone_default};

verus! {

pub open spec fn spec_azure_region_zone(region: Seq<char>) -> Option<Seq<char>> {
    if region == "eastus"@ || region == "eastus2"@ || region == "centralus"@ || region == "northcentralus"@ || region == "southcentralus"@ {
        Some("us-nyc1"@)
    } else if region == "westus"@ || region == "westus2"@ || region == "westus3"@ {
        Some("us-chi1"@)
    } else if region == "canadacentral"@ || region == "canadaeast"@ {
        Some("us-nyc1"@)
    } else if region == "northeurope"@ || region == "uksouth"@ || region == "ukwest"@ {
        Some("de-fra1"@)
    } else if region == "westeurope"@ || region == "germanywestcentral"@ || region == "francecentral"@ || region == "francesouth"@ {
        Some("de-fra1"@)
    } else if region == "swedencentral"@ || region == "norwayeast"@ {
        Some("fi-hel1"@)
    } else if region == "southeastasia"@ || region == "eastasia"@ {
        Some("sg-sin1"@)
    } else if region == "japaneast"@ || region == "japanwest"@ || region == "koreacentral"@ {
        Some("sg-sin1"@)
    } else if region == "australiaeast"@ || region == "australiasoutheast"@ {
        Some("au-syd1"@)
    } else if region == "brazilsouth"@ {
        Some("us-nyc1"@)
    } else if region == "centralindia"@ || region == "southindia"@ || region == "westindia"@ {
        Some("sg-sin1"@)
    } else if region == "uaenorth"@ {
        Some("sg-sin1"@)
    } else if region == "southafricanorth"@ {
        Some("de-fra1"@)
    } else {
        None
    }
}

/// Map an Azure region to the closest UpCloud zone.
pub fn azure_region_to_upcloud_zone(region: &str) -> (r: Option<&'static str>)
    ensures
        r matches Some(x) ==> spec_azure_region_zone(region@) == Some(x@),
        r is None ==> spec_azure_region_zone(region@) is None,
{
    let v = chars_of(region);
    if eq_str(&v, "eastus") || eq_str(&v, "eastus2") || eq_str(&v, "centralus") || eq_str(&v, "northcentralus") || eq_str(&v, "southcentralus") {
        Some("us-nyc1")
    } else if eq_str(&v, "westus") || eq_str(&v, "westus2") || eq_str(&v, "westus3") {
        Some("us-chi1")
    } else if eq_str(&v, "canadacentral") || eq_str(&v, "canadaeast") {
        Some("us-nyc1")
    } else if eq_str(&v, "northeurope") || eq_str(&v, "uksouth") || eq_str(&v, "ukwest") {
        Some("de-fra1")
    } else if eq_str(&v, "westeurope") || eq_str(&v, "germanywestcentral") || eq_str(&v, "francecentral") || eq_str(&v, "francesouth") {
        Some("de-fra1")
    } else if eq_str(&v, "swedencentral") || eq_str(&v, "norwayeast") {
        Some("fi-hel1")
    } else if eq_str(&v, "southeastasia") || eq_str(&v, "eastasia") {
        Some("sg-sin1")
    } else if eq_str(&v, "japaneast") || eq_str(&v, "japanwest") || eq_str(&v, "koreacentral") {
        Some("sg-sin1")
    } else if eq_str(&v, "australiaeast") || eq_str(&v, "australiasoutheast") {
        Some("au-syd1")
    } else if eq_str(&v, "brazilsouth") {
        Some("us-nyc1")
    } else if eq_str(&v, "centralindia") || eq_str(&v, "southindia") || eq_str(&v, "westindia") {
        Some("sg-sin1")
    } else if eq_str(&v, "uaenorth") {
        Some("sg-sin1")
    } else if eq_str(&v, "southafricanorth") {
        Some("de-fra1")
    } else {
        None
    }
}

pub open spec fn spec_is_azure_region(s: Seq<char>) -> bool {
    s == "eastus"@
    || s == "eastus2"@
    || s == "centralus"@
    || s == "northcentralus"@
    || s == "southcentralus"@
    || s == "westus"@
    || s == "westus2"@
    || s == "westus3"@
    || s == "canadacentral"@
    || s == "canadaeast"@
    || s == "northeurope"@
    || s == "westeurope"@
    || s == "uksouth"@
    || s == "ukwest"@
    || s == "francecentral"@
    || s == "francesouth"@
    || s == "germanywestcentral"@
    || s == "swedencentral"@
    || s == "norwayeast"@
    || s == "southeastasia"@
    || s == "eastasia"@
    || s == "japaneast"@
    || s == "japanwest"@
    || s == "koreacentral"@
    || s == "australiaeast"@
    || s == "australiasoutheast"@
    || s == "brazilsouth"@
    || s == "centralindia"@
    || s == "southindia"@
    || s == "westindia"@
    || s == "uaenorth"@
    || s == "southafricanorth"@
}

/// Whether `s` is one of the known Azure regions.
fn is_azure_region(s: &str) -> (r: bool)
    ensures
        r == spec_is_azure_region(s@),
{
    let v = chars_of(s);
    eq_str(&v, "eastus")
        || eq_str(&v, "eastus2")
        || eq_str(&v, "centralus")
        || eq_str(&v, "northcentralus")
        || eq_str(&v, "southcentralus")
        || eq_str(&v, "westus")
        || eq_str(&v, "westus2")
        || eq_str(&v, "westus3")
        || eq_str(&v, "canadacentral")
        || eq_str(&v, "canadaeast")
        || eq_str(&v, "northeurope")
        || eq_str(&v, "westeurope")
        || eq_str(&v, "uksouth")
        || eq_str(&v, "ukwest")
        || eq_str(&v, "francecentral")
        || eq_str(&v, "francesouth")
        || eq_str(&v, "germanywestcentral")
        || eq_str(&v, "swedencentral")
        || eq_str(&v, "norwayeast")
        || eq_str(&v, "southeastasia")
        || eq_str(&v, "eastasia")
        || eq_str(&v, "japaneast")
        || eq_str(&v, "japanwest")
        || eq_str(&v, "koreacentral")
        || eq_str(&v, "australiaeast")
        || eq_str(&v, "australiasoutheast")
        || eq_str(&v, "brazilsouth")
        || eq_str(&v, "centralindia")
        || eq_str(&v, "southindia")
        || eq_str(&v, "westindia")
        || eq_str(&v, "uaenorth")
        || eq_str(&v, "southafricanorth")
}


fn push_signal(signals: &mut Vec<String>, s: String)
    ensures
        strs_view(final(signals)@) == strs_view(old(signals)@).push(s@),
{
    signals.push(s);
    assert(strs_view(signals@) =~= strs_view(old(signals)@).push(s@));
}

// ───────────────────────── VM size scoring ─────────────────────────

/// Signal 1: the default is an Azure VM size; gives (points, signals, converted plan).
pub open spec fn vm_default_signal(default_val: Option<Seq<char>>) -> (nat, Seq<Seq<char>>, Option<
    Seq<char>,
>) {
    match default_val {
        Some(dv) => match spec_azure_vm_plan(dv) {
            Some(p) => (5, seq!["default '"@ + dv + "' is an Azure VM size"@], Some(p)),
            None => (0, seq![], None),
        },
        None => (0, seq![], None),
    }
}

/// Signal 2: used as a `size` or `vm_size` attribute.
pub open spec fn vm_usage_signal(usage: Seq<Seq<char>>) -> (nat, Seq<Seq<char>>) {
    if usage.contains("size"@) || usage.contains("vm_size"@) {
        (5, seq!["referenced as 'size' or 'vm_size' attribute in a resource"@])
    } else {
        (0, seq![])
    }
}

/// Signal 3: the lower-cased description mentions a VM size.
pub open spec fn vm_desc_signal(description: Option<Seq<char>>) -> (nat, Seq<Seq<char>>) {
    match description {
        Some(d) => {
            let dl = spec_to_lowercase(d);
            if contains(dl, "vm size"@) || contains(dl, "virtual machine size"@) || contains(
                dl,
                "instance size"@,
            ) || contains(dl, "machine size"@) || contains(dl, "sku"@) {
                (2, seq!["description mentions VM size"@])
            } else {
                (0, seq![])
            }
        },
        None => (0, seq![]),
    }
}

/// Signal 4: the lower-cased variable name suggests a VM size.
pub open spec fn vm_name_signal(name: Seq<char>) -> (nat, Seq<Seq<char>>) {
    let nl = spec_to_lowercase(name);
    if contains(nl, "vm_size"@) || contains(nl, "instance_size"@) || contains(nl, "machine_size"@)
        || contains(nl, "sku_name"@) {
        (1, seq!["variable name suggests VM size"@])
    } else {
        (0, seq![])
    }
}

/// The VM size candidate: the sum of the four signals, capped at 10, or none when 0.
pub open spec fn spec_score_vm_size(
    name: Seq<char>,
    default_val: Option<Seq<char>>,
    description: Option<Seq<char>>,
    usage: Seq<Seq<char>>,
) -> Option<VarConversionModel> {
    let (s1, g1, cv) = vm_default_signal(default_val);
    let (s2, g2) = vm_usage_signal(usage);
    let (s3, g3) = vm_desc_signal(description);
    let (s4, g4) = vm_name_signal(name);
    let score = s1 + s2 + s3 + s4;
    if score == 0 {
        None
    } else {
        Some(
            VarConversionModel {
                kind: VarKind::InstanceType,
                confidence: cap10(score),
                converted_value: cv,
                original_default: default_val,
                signals: g1 + g2 + g3 + g4,
            },
        )
    }
}

fn score_vm_size(
    name: &str,
    default_val: Option<&str>,
    description: Option<&str>,
    usage_attrs: &[String],
) -> (r: Option<VarConversion>)
    ensures
        opt_conv_view(r) == spec_score_vm_size(
            name@,
            opt_str_view(default_val),
            opt_str_view(description),
            strs_view(usage_attrs@),
        ),
{
    let ghost (s1, g1, cv1) = vm_default_signal(opt_str_view(default_val));
    let ghost (s2, g2) = vm_usage_signal(strs_view(usage_attrs@));
    let ghost (s3, g3) = vm_desc_signal(opt_str_view(description));
    let ghost (s4, g4) = vm_name_signal(name@);
    let mut score: u8 = 0;
    let mut signals: Vec<String> = Vec::new();
    let mut converted_value: Option<String> = None;
    let original_default = opt_to_owned(default_val);

    if let Some(dv) = default_val {
        if let Some(plan) = azure_vm_size_to_upcloud_plan(dv) {
            score += 5;
            push_signal(&mut signals, concat3("default '", dv, "' is an Azure VM size"));
            converted_value = Some(plan.to_owned());
        }
    }
    assert(score == s1 && strs_view(signals@) =~= g1);

    if attrs_contain(usage_attrs, "size") || attrs_contain(usage_attrs, "vm_size") {
        score += 5;
        push_signal(
            &mut signals,
            "referenced as 'size' or 'vm_size' attribute in a resource".to_owned(),
        );
    }
    assert(score == s1 + s2 && strs_view(signals@) =~= g1 + g2);

    if let Some(desc) = description {
        let dl_s = to_lowercase(desc);
        let dl = chars_of(dl_s.as_str());
        if contains_str(&dl, "vm size") || contains_str(&dl, "virtual machine size")
            || contains_str(&dl, "instance size") || contains_str(&dl, "machine size")
            || contains_str(&dl, "sku") {
            score += 2;
            push_signal(&mut signals, "description mentions VM size".to_owned());
        }
    }
    assert(score == s1 + s2 + s3 && strs_view(signals@) =~= g1 + g2 + g3);

    let nl_s = to_lowercase(name);
    let nl = chars_of(nl_s.as_str());
    if contains_str(&nl, "vm_size") || contains_str(&nl, "instance_size") || contains_str(
        &nl,
        "machine_size",
    ) || contains_str(&nl, "sku_name") {
        score += 1;
        push_signal(&mut signals, "variable name suggests VM size".to_owned());
    }
    assert(score == s1 + s2 + s3 + s4 && strs_view(signals@) =~= g1 + g2 + g3 + g4);

    if score == 0 {
        return None;
    }
    Some(
        VarConversion {
            kind: VarKind::InstanceType,
            confidence: if score > 10 { 10 } else { score },
            converted_value,
            original_default,
            signals,
        },
    )
}

// ───────────────────────── region scoring ─────────────────────────

/// Signal 1: the default is a known Azure region; gives (points, signals, converted zone).
pub open spec fn az_default_signal(default_val: Option<Seq<char>>) -> (nat, Seq<Seq<char>>, Option<
    Seq<char>,
>) {
    match default_val {
        Some(dv) => if spec_is_azure_region(dv) {
            (5, seq!["default '"@ + dv + "' is an Azure region"@], spec_azure_region_zone(dv))
        } else {
            (0, seq![], None)
        },
        None => (0, seq![], None),
    }
}

/// Signal 2: used as a `location` attribute.
pub open spec fn az_usage_signal(usage: Seq<Seq<char>>) -> (nat, Seq<Seq<char>>) {
    if usage.contains("location"@) {
        (5, seq!["referenced as 'location' attribute in a resource"@])
    } else {
        (0, seq![])
    }
}

/// Signal 3: the lower-cased description mentions a region or location.
pub open spec fn az_desc_signal(description: Option<Seq<char>>) -> (nat, Seq<Seq<char>>) {
    match description {
        Some(d) => {
            let dl = spec_to_lowercase(d);
            if contains(dl, "region"@) || contains(dl, "location"@) || contains(
                dl,
                "azure region"@,
            ) || contains(dl, "deployment region"@) {
                (2, seq!["description mentions region/location"@])
            } else {
                (0, seq![])
            }
        },
        None => (0, seq![]),
    }
}

/// Signal 4: the lower-cased variable name suggests a region.
pub open spec fn az_name_signal(name: Seq<char>) -> (nat, Seq<Seq<char>>) {
    let nl = spec_to_lowercase(name);
    if contains(nl, "region"@) || contains(nl, "location"@) || nl == "azure_region"@ {
        (1, seq!["variable name suggests region"@])
    } else {
        (0, seq![])
    }
}

/// The region candidate: the sum of the four signals, capped at 10, or none when 0.
pub open spec fn spec_score_region(
    name: Seq<char>,
    default_val: Option<Seq<char>>,
    description: Option<Seq<char>>,
    usage: Seq<Seq<char>>,
) -> Option<VarConversionModel> {
    let (s1, g1, cv) = az_default_signal(default_val);
    let (s2, g2) = az_usage_signal(usage);
    let (s3, g3) = az_desc_signal(description);
    let (s4, g4) = az_name_signal(name);
    let score = s1 + s2 + s3 + s4;
    if score == 0 {
        None
    } else {
        Some(
            VarConversionModel {
                kind: VarKind::Region,
                confidence: cap10(score),
                converted_value: cv,
                original_default: default_val,
                signals: g1 + g2 + g3 + g4,
            },
        )
    }
}

fn score_region(
    name: &str,
    default_val: Option<&str>,
    description: Option<&str>,
    usage_attrs: &[String],
) -> (r: Option<VarConversion>)
    ensures
        opt_conv_view(r) == spec_score_region(
            name@,
            opt_str_view(default_val),
            opt_str_view(description),
            strs_view(usage_attrs@),
        ),
{
    let ghost (s1, g1, cv1) = az_default_signal(opt_str_view(default_val));
    let ghost (s2, g2) = az_usage_signal(strs_view(usage_attrs@));
    let ghost (s3, g3) = az_desc_signal(opt_str_view(description));
    let ghost (s4, g4) = az_name_signal(name@);
    let mut score: u8 = 0;
    let mut signals: Vec<String> = Vec::new();
    let mut converted_value: Option<String> = None;
    let original_default = opt_to_owned(default_val);

    if let Some(dv) = default_val {
        if is_azure_region(dv) {
            score += 5;
            push_signal(&mut signals, concat3("default '", dv, "' is an Azure region"));
            if let Some(zone) = azure_region_to_upcloud_zone(dv) {
                converted_value = Some(zone.to_owned());
            }
        }
    }
    assert(score == s1 && strs_view(signals@) =~= g1);

    if attrs_contain(usage_attrs, "location") {
        score += 5;
        push_signal(&mut signals, "referenced as 'location' attribute in a resource".to_owned());
    }
    assert(score == s1 + s2 && strs_view(signals@) =~= g1 + g2);

    if let Some(desc) = description {
        let dl_s = to_lowercase(desc);
        let dl = chars_of(dl_s.as_str());
        if contains_str(&dl, "region") || contains_str(&dl, "location") || contains_str(
            &dl,
            "azure region",
        ) || contains_str(&dl, "deployment region") {
            score += 2;
            push_signal(&mut signals, "description mentions region/location".to_owned());
        }
    }
    assert(score == s1 + s2 + s3 && strs_view(signals@) =~= g1 + g2 + g3);

    let nl_s = to_lowercase(name);
    let nl = chars_of(nl_s.as_str());
    if contains_str(&nl, "region") || contains_str(&nl, "location") || eq_str(&nl, "azure_region") {
        score += 1;
        push_signal(&mut signals, "variable name suggests region".to_owned());
    }
    assert(score == s1 + s2 + s3 + s4 && strs_view(signals@) =~= g1 + g2 + g3 + g4);

    if score == 0 {
        return None;
    }
    Some(
        VarConversion {
            kind: VarKind::Region,
            confidence: if score > 10 { 10 } else { score },
            converted_value,
            original_default,
            signals,
        },
    )
}

/// Recognises Azure VM sizes and Azure regions.
pub struct AzureVarDetector;

impl VarDetector for AzureVarDetector {
    open spec fn spec_detect(
        &self,
        name: Seq<char>,
        default_val: Option<Seq<char>>,
        description: Option<Seq<char>>,
        usage_attrs: Seq<Seq<char>>,
    ) -> Seq<VarConversionModel> {
        some_views(
            spec_score_vm_size(name, default_val, description, usage_attrs),
            spec_score_region(name, default_val, description, usage_attrs),
        )
    }

    fn detect(
        &self,
        name: &str,
        default_val: Option<&str>,
        description: Option<&str>,
        usage_attrs: &[String],
    ) -> (r: Vec<VarConversion>) {
        let a = score_vm_size(name, default_val, description, usage_attrs);
        let b = score_region(name, default_val, description, usage_attrs);
        collect_candidates(a, b)
    }
}

/// The Azure regions with an UpCloud zone, and their zones: American regions to `us-nyc1`
/// or `us-chi1` (west), European ones to `de-fra1` or `fi-hel1` (Nordic), Asian and
/// Middle East ones to `sg-sin1`, Australian ones to `au-syd1`; no other region has one.
pub proof fn azure_region_zone_table(region: Seq<char>)
    ensures
        spec_azure_region_zone("eastus"@) == Some("us-nyc1"@),
        spec_azure_region_zone("eastus2"@) == Some("us-nyc1"@),
        spec_azure_region_zone("centralus"@) == Some("us-nyc1"@),
        spec_azure_region_zone("northcentralus"@) == Some("us-nyc1"@),
        spec_azure_region_zone("southcentralus"@) == Some("us-nyc1"@),
        spec_azure_region_zone("westus"@) == Some("us-chi1"@),
        spec_azure_region_zone("westus2"@) == Some("us-chi1"@),
        spec_azure_region_zone("westus3"@) == Some("us-chi1"@),
        spec_azure_region_zone("canadacentral"@) == Some("us-nyc1"@),
        spec_azure_region_zone("canadaeast"@) == Some("us-nyc1"@),
        spec_azure_region_zone("northeurope"@) == Some("de-fra1"@),
        spec_azure_region_zone("uksouth"@) == Some("de-fra1"@),
        spec_azure_region_zone("ukwest"@) == Some("de-fra1"@),
        spec_azure_region_zone("westeurope"@) == Some("de-fra1"@),
        spec_azure_region_zone("germanywestcentral"@) == Some("de-fra1"@),
        spec_azure_region_zone("francecentral"@) == Some("de-fra1"@),
        spec_azure_region_zone("francesouth"@) == Some("de-fra1"@),
        spec_azure_region_zone("swedencentral"@) == Some("fi-hel1"@),
        spec_azure_region_zone("norwayeast"@) == Some("fi-hel1"@),
        spec_azure_region_zone("southeastasia"@) == Some("sg-sin1"@),
        spec_azure_region_zone("eastasia"@) == Some("sg-sin1"@),
        spec_azure_region_zone("japaneast"@) == Some("sg-sin1"@),
        spec_azure_region_zone("japanwest"@) == Some("sg-sin1"@),
        spec_azure_region_zone("koreacentral"@) == Some("sg-sin1"@),
        spec_azure_region_zone("australiaeast"@) == Some("au-syd1"@),
        spec_azure_region_zone("australiasoutheast"@) == Some("au-syd1"@),
        spec_azure_region_zone("brazilsouth"@) == Some("us-nyc1"@),
        spec_azure_region_zone("centralindia"@) == Some("sg-sin1"@),
        spec_azure_region_zone("southindia"@) == Some("sg-sin1"@),
        spec_azure_region_zone("westindia"@) == Some("sg-sin1"@),
        spec_azure_region_zone("uaenorth"@) == Some("sg-sin1"@),
        spec_azure_region_zone("southafricanorth"@) == Some("de-fra1"@),
        spec_azure_region_zone(region) is Some ==> (region == "eastus"@ || region == "eastus2"@ || region == "centralus"@ || region == "northcentralus"@ || region == "southcentralus"@ || region == "westus"@ || region == "westus2"@ || region == "westus3"@ || region == "canadacentral"@ || region == "canadaeast"@ || region == "northeurope"@ || region == "uksouth"@ || region == "ukwest"@ || region == "westeurope"@ || region == "germanywestcentral"@ || region == "francecentral"@ || region == "francesouth"@ || region == "swedencentral"@ || region == "norwayeast"@ || region == "southeastasia"@ || region == "eastasia"@ || region == "japaneast"@ || region == "japanwest"@ || region == "koreacentral"@ || region == "australiaeast"@ || region == "australiasoutheast"@ || region == "brazilsouth"@ || region == "centralindia"@ || region == "southindia"@ || region == "westindia"@ || region == "uaenorth"@ || region == "southafricanorth"@),
{
    reveal_strlit("eastus");
    assert("eastus"@[0] == 'e');
    assert("eastus"@[1] == 'a');
    assert("eastus"@[2] == 's');
    assert("eastus"@[3] == 't');
    assert("eastus"@[4] == 'u');
    assert("eastus"@[5] == 's');
    reveal_strlit("eastus2");
    assert("eastus2"@[0] == 'e');
    assert("eastus2"@[1] == 'a');
    assert("eastus2"@[2] == 's');
    assert("eastus2"@[3] == 't');
    assert("eastus2"@[4] == 'u');
    assert("eastus2"@[5] == 's');
    assert("eastus2"@[6] == '2');
    reveal_strlit("centralus");
    assert("centralus"@[0] == 'c');
    assert("centralus"@[1] == 'e');
    assert("centralus"@[2] == 'n');
    assert("centralus"@[3] == 't');
    assert("centralus"@[4] == 'r');
    assert("centralus"@[5] == 'a');
    assert("centralus"@[6] == 'l');
    assert("centralus"@[7] == 'u');
    assert("centralus"@[8] == 's');
    reveal_strlit("northcentralus");
    assert("northcentralus"@[0] == 'n');
    assert("northcentralus"@[1] == 'o');
    assert("northcentralus"@[2] == 'r');
    assert("northcentralus"@[3] == 't');
    assert("northcentralus"@[4] == 'h');
    assert("northcentralus"@[5] == 'c');
    assert("northcentralus"@[6] == 'e');
    assert("northcentralus"@[7] == 'n');
    assert("northcentralus"@[8] == 't');
    assert("northcentralus"@[9] == 'r');
    assert("northcentralus"@[10] == 'a');
    assert("northcentralus"@[11] == 'l');
    assert("northcentralus"@[12] == 'u');
    assert("northcentralus"@[13] == 's');
    reveal_strlit("southcentralus");
    assert("southcentralus"@[0] == 's');
    assert("southcentralus"@[1] == 'o');
    assert("southcentralus"@[2] == 'u');
    assert("southcentralus"@[3] == 't');
    assert("southcentralus"@[4] == 'h');
    assert("southcentralus"@[5] == 'c');
    assert("southcentralus"@[6] == 'e');
    assert("southcentralus"@[7] == 'n');
    assert("southcentralus"@[8] == 't');
    assert("southcentralus"@[9] == 'r');
    assert("southcentralus"@[10] == 'a');
    assert("southcentralus"@[11] == 'l');
    assert("southcentralus"@[12] == 'u');
    assert("southcentralus"@[13] == 's');
    reveal_strlit("westus");
    assert("westus"@[0] == 'w');
    assert("westus"@[1] == 'e');
    assert("westus"@[2] == 's');
    assert("westus"@[3] == 't');
    assert("westus"@[4] == 'u');
    assert("westus"@[5] == 's');
    reveal_strlit("westus2");
    assert("westus2"@[0] == 'w');
    assert("westus2"@[1] == 'e');
    assert("westus2"@[2] == 's');
    assert("westus2"@[3] == 't');
    assert("westus2"@[4] == 'u');
    assert("westus2"@[5] == 's');
    assert("westus2"@[6] == '2');
    reveal_strlit("westus3");
    assert("westus3"@[0] == 'w');
    assert("westus3"@[1] == 'e');
    assert("westus3"@[2] == 's');
    assert("westus3"@[3] == 't');
    assert("westus3"@[4] == 'u');
    assert("westus3"@[5] == 's');
    assert("westus3"@[6] == '3');
    reveal_strlit("canadacentral");
    assert("canadacentral"@[0] == 'c');
    assert("canadacentral"@[1] == 'a');
    assert("canadacentral"@[2] == 'n');
    assert("canadacentral"@[3] == 'a');
    assert("canadacentral"@[4] == 'd');
    assert("canadacentral"@[5] == 'a');
    assert("canadacentral"@[6] == 'c');
    assert("canadacentral"@[7] == 'e');
    assert("canadacentral"@[8] == 'n');
    assert("canadacentral"@[9] == 't');
    assert("canadacentral"@[10] == 'r');
    assert("canadacentral"@[11] == 'a');
    assert("canadacentral"@[12] == 'l');
    reveal_strlit("canadaeast");
    assert("canadaeast"@[0] == 'c');
    assert("canadaeast"@[1] == 'a');
    assert("canadaeast"@[2] == 'n');
    assert("canadaeast"@[3] == 'a');
    assert("canadaeast"@[4] == 'd');
    assert("canadaeast"@[5] == 'a');
    assert("canadaeast"@[6] == 'e');
    assert("canadaeast"@[7] == 'a');
    assert("canadaeast"@[8] == 's');
    assert("canadaeast"@[9] == 't');
    reveal_strlit("northeurope");
    assert("northeurope"@[0] == 'n');
    assert("northeurope"@[1] == 'o');
    assert("northeurope"@[2] == 'r');
    assert("northeurope"@[3] == 't');
    assert("northeurope"@[4] == 'h');
    assert("northeurope"@[5] == 'e');
    assert("northeurope"@[6] == 'u');
    assert("northeurope"@[7] == 'r');
    assert("northeurope"@[8] == 'o');
    assert("northeurope"@[9] == 'p');
    assert("northeurope"@[10] == 'e');
    reveal_strlit("uksouth");
    assert("uksouth"@[0] == 'u');
    assert("uksouth"@[1] == 'k');
    assert("uksouth"@[2] == 's');
    assert("uksouth"@[3] == 'o');
    assert("uksouth"@[4] == 'u');
    assert("uksouth"@[5] == 't');
    assert("uksouth"@[6] == 'h');
    reveal_strlit("ukwest");
    assert("ukwest"@[0] == 'u');
    assert("ukwest"@[1] == 'k');
    assert("ukwest"@[2] == 'w');
    assert("ukwest"@[3] == 'e');
    assert("ukwest"@[4] == 's');
    assert("ukwest"@[5] == 't');
    reveal_strlit("westeurope");
    assert("westeurope"@[0] == 'w');
    assert("westeurope"@[1] == 'e');
    assert("westeurope"@[2] == 's');
    assert("westeurope"@[3] == 't');
    assert("westeurope"@[4] == 'e');
    assert("westeurope"@[5] == 'u');
    assert("westeurope"@[6] == 'r');
    assert("westeurope"@[7] == 'o');
    assert("westeurope"@[8] == 'p');
    assert("westeurope"@[9] == 'e');
    reveal_strlit("germanywestcentral");
    assert("germanywestcentral"@[0] == 'g');
    assert("germanywestcentral"@[1] == 'e');
    assert("germanywestcentral"@[2] == 'r');
    assert("germanywestcentral"@[3] == 'm');
    assert("germanywestcentral"@[4] == 'a');
    assert("germanywestcentral"@[5] == 'n');
    assert("germanywestcentral"@[6] == 'y');
    assert("germanywestcentral"@[7] == 'w');
    assert("germanywestcentral"@[8] == 'e');
    assert("germanywestcentral"@[9] == 's');
    assert("germanywestcentral"@[10] == 't');
    assert("germanywestcentral"@[11] == 'c');
    assert("germanywestcentral"@[12] == 'e');
    assert("germanywestcentral"@[13] == 'n');
    assert("germanywestcentral"@[14] == 't');
    assert("germanywestcentral"@[15] == 'r');
    assert("germanywestcentral"@[16] == 'a');
    assert("germanywestcentral"@[17] == 'l');
    reveal_strlit("francecentral");
    assert("francecentral"@[0] == 'f');
    assert("francecentral"@[1] == 'r');
    assert("francecentral"@[2] == 'a');
    assert("francecentral"@[3] == 'n');
    assert("francecentral"@[4] == 'c');
    assert("francecentral"@[5] == 'e');
    assert("francecentral"@[6] == 'c');
    assert("francecentral"@[7] == 'e');
    assert("francecentral"@[8] == 'n');
    assert("francecentral"@[9] == 't');
    assert("francecentral"@[10] == 'r');
    assert("francecentral"@[11] == 'a');
    assert("francecentral"@[12] == 'l');
    reveal_strlit("francesouth");
    assert("francesouth"@[0] == 'f');
    assert("francesouth"@[1] == 'r');
    assert("francesouth"@[2] == 'a');
    assert("francesouth"@[3] == 'n');
    assert("francesouth"@[4] == 'c');
    assert("francesouth"@[5] == 'e');
    assert("francesouth"@[6] == 's');
    assert("francesouth"@[7] == 'o');
    assert("francesouth"@[8] == 'u');
    assert("francesouth"@[9] == 't');
    assert("francesouth"@[10] == 'h');
    reveal_strlit("swedencentral");
    assert("swedencentral"@[0] == 's');
    assert("swedencentral"@[1] == 'w');
    assert("swedencentral"@[2] == 'e');
    assert("swedencentral"@[3] == 'd');
    assert("swedencentral"@[4] == 'e');
    assert("swedencentral"@[5] == 'n');
    assert("swedencentral"@[6] == 'c');
    assert("swedencentral"@[7] == 'e');
    assert("swedencentral"@[8] == 'n');
    assert("swedencentral"@[9] == 't');
    assert("swedencentral"@[10] == 'r');
    assert("swedencentral"@[11] == 'a');
    assert("swedencentral"@[12] == 'l');
    reveal_strlit("norwayeast");
    assert("norwayeast"@[0] == 'n');
    assert("norwayeast"@[1] == 'o');
    assert("norwayeast"@[2] == 'r');
    assert("norwayeast"@[3] == 'w');
    assert("norwayeast"@[4] == 'a');
    assert("norwayeast"@[5] == 'y');
    assert("norwayeast"@[6] == 'e');
    assert("norwayeast"@[7] == 'a');
    assert("norwayeast"@[8] == 's');
    assert("norwayeast"@[9] == 't');
    reveal_strlit("southeastasia");
    assert("southeastasia"@[0] == 's');
    assert("southeastasia"@[1] == 'o');
    assert("southeastasia"@[2] == 'u');
    assert("southeastasia"@[3] == 't');
    assert("southeastasia"@[4] == 'h');
    assert("southeastasia"@[5] == 'e');
    assert("southeastasia"@[6] == 'a');
    assert("southeastasia"@[7] == 's');
    assert("southeastasia"@[8] == 't');
    assert("southeastasia"@[9] == 'a');
    assert("southeastasia"@[10] == 's');
    assert("southeastasia"@[11] == 'i');
    assert("southeastasia"@[12] == 'a');
    reveal_strlit("eastasia");
    assert("eastasia"@[0] == 'e');
    assert("eastasia"@[1] == 'a');
    assert("eastasia"@[2] == 's');
    assert("eastasia"@[3] == 't');
    assert("eastasia"@[4] == 'a');
    assert("eastasia"@[5] == 's');
    assert("eastasia"@[6] == 'i');
    assert("eastasia"@[7] == 'a');
    reveal_strlit("japaneast");
    assert("japaneast"@[0] == 'j');
    assert("japaneast"@[1] == 'a');
    assert("japaneast"@[2] == 'p');
    assert("japaneast"@[3] == 'a');
    assert("japaneast"@[4] == 'n');
    assert("japaneast"@[5] == 'e');
    assert("japaneast"@[6] == 'a');
    assert("japaneast"@[7] == 's');
    assert("japaneast"@[8] == 't');
    reveal_strlit("japanwest");
    assert("japanwest"@[0] == 'j');
    assert("japanwest"@[1] == 'a');
    assert("japanwest"@[2] == 'p');
    assert("japanwest"@[3] == 'a');
    assert("japanwest"@[4] == 'n');
    assert("japanwest"@[5] == 'w');
    assert("japanwest"@[6] == 'e');
    assert("japanwest"@[7] == 's');
    assert("japanwest"@[8] == 't');
    reveal_strlit("koreacentral");
    assert("koreacentral"@[0] == 'k');
    assert("koreacentral"@[1] == 'o');
    assert("koreacentral"@[2] == 'r');
    assert("koreacentral"@[3] == 'e');
    assert("koreacentral"@[4] == 'a');
    assert("koreacentral"@[5] == 'c');
    assert("koreacentral"@[6] == 'e');
    assert("koreacentral"@[7] == 'n');
    assert("koreacentral"@[8] == 't');
    assert("koreacentral"@[9] == 'r');
    assert("koreacentral"@[10] == 'a');
    assert("koreacentral"@[11] == 'l');
    reveal_strlit("australiaeast");
    assert("australiaeast"@[0] == 'a');
    assert("australiaeast"@[1] == 'u');
    assert("australiaeast"@[2] == 's');
    assert("australiaeast"@[3] == 't');
    assert("australiaeast"@[4] == 'r');
    assert("australiaeast"@[5] == 'a');
    assert("australiaeast"@[6] == 'l');
    assert("australiaeast"@[7] == 'i');
    assert("australiaeast"@[8] == 'a');
    assert("australiaeast"@[9] == 'e');
    assert("australiaeast"@[10] == 'a');
    assert("australiaeast"@[11] == 's');
    assert("australiaeast"@[12] == 't');
    reveal_strlit("australiasoutheast");
    assert("australiasoutheast"@[0] == 'a');
    assert("australiasoutheast"@[1] == 'u');
    assert("australiasoutheast"@[2] == 's');
    assert("australiasoutheast"@[3] == 't');
    assert("australiasoutheast"@[4] == 'r');
    assert("australiasoutheast"@[5] == 'a');
    assert("australiasoutheast"@[6] == 'l');
    assert("australiasoutheast"@[7] == 'i');
    assert("australiasoutheast"@[8] == 'a');
    assert("australiasoutheast"@[9] == 's');
    assert("australiasoutheast"@[10] == 'o');
    assert("australiasoutheast"@[11] == 'u');
    assert("australiasoutheast"@[12] == 't');
    assert("australiasoutheast"@[13] == 'h');
    assert("australiasoutheast"@[14] == 'e');
    assert("australiasoutheast"@[15] == 'a');
    assert("australiasoutheast"@[16] == 's');
    assert("australiasoutheast"@[17] == 't');
    reveal_strlit("brazilsouth");
    assert("brazilsouth"@[0] == 'b');
    assert("brazilsouth"@[1] == 'r');
    assert("brazilsouth"@[2] == 'a');
    assert("brazilsouth"@[3] == 'z');
    assert("brazilsouth"@[4] == 'i');
    assert("brazilsouth"@[5] == 'l');
    assert("brazilsouth"@[6] == 's');
    assert("brazilsouth"@[7] == 'o');
    assert("brazilsouth"@[8] == 'u');
    assert("brazilsouth"@[9] == 't');
    assert("brazilsouth"@[10] == 'h');
    reveal_strlit("centralindia");
    assert("centralindia"@[0] == 'c');
    assert("centralindia"@[1] == 'e');
    assert("centralindia"@[2] == 'n');
    assert("centralindia"@[3] == 't');
    assert("centralindia"@[4] == 'r');
    assert("centralindia"@[5] == 'a');
    assert("centralindia"@[6] == 'l');
    assert("centralindia"@[7] == 'i');
    assert("centralindia"@[8] == 'n');
    assert("centralindia"@[9] == 'd');
    assert("centralindia"@[10] == 'i');
    assert("centralindia"@[11] == 'a');
    reveal_strlit("southindia");
    assert("southindia"@[0] == 's');
    assert("southindia"@[1] == 'o');
    assert("southindia"@[2] == 'u');
    assert("southindia"@[3] == 't');
    assert("southindia"@[4] == 'h');
    assert("southindia"@[5] == 'i');
    assert("southindia"@[6] == 'n');
    assert("southindia"@[7] == 'd');
    assert("southindia"@[8] == 'i');
    assert("southindia"@[9] == 'a');
    reveal_strlit("westindia");
    assert("westindia"@[0] == 'w');
    assert("westindia"@[1] == 'e');
    assert("westindia"@[2] == 's');
    assert("westindia"@[3] == 't');
    assert("westindia"@[4] == 'i');
    assert("westindia"@[5] == 'n');
    assert("westindia"@[6] == 'd');
    assert("westindia"@[7] == 'i');
    assert("westindia"@[8] == 'a');
    reveal_strlit("uaenorth");
    assert("uaenorth"@[0] == 'u');
    assert("uaenorth"@[1] == 'a');
    assert("uaenorth"@[2] == 'e');
    assert("uaenorth"@[3] == 'n');
    assert("uaenorth"@[4] == 'o');
    assert("uaenorth"@[5] == 'r');
    assert("uaenorth"@[6] == 't');
    assert("uaenorth"@[7] == 'h');
    reveal_strlit("southafricanorth");
    assert("southafricanorth"@[0] == 's');
    assert("southafricanorth"@[1] == 'o');
    assert("southafricanorth"@[2] == 'u');
    assert("southafricanorth"@[3] == 't');
    assert("southafricanorth"@[4] == 'h');
    assert("southafricanorth"@[5] == 'a');
    assert("southafricanorth"@[6] == 'f');
    assert("southafricanorth"@[7] == 'r');
    assert("southafricanorth"@[8] == 'i');
    assert("southafricanorth"@[9] == 'c');
    assert("southafricanorth"@[10] == 'a');
    assert("southafricanorth"@[11] == 'n');
    assert("southafricanorth"@[12] == 'o');
    assert("southafricanorth"@[13] == 'r');
    assert("southafricanorth"@[14] == 't');
    assert("southafricanorth"@[15] == 'h');
}

/// The zone written for a Azure provider region is the zone its region variable converts
/// to, whenever the region is one the provider block knows.
pub proof fn azure_zone_default_agrees_with_region_conversion(region: Seq<char>)
    ensures
        spec_azure_zone_default(region) != "__ZONE__"@ ==> spec_azure_region_zone(region) == Some(spec_azure_zone_default(region)),
{
    azure_zone_default_table(region);
    azure_region_zone_table(region);
    reveal_strlit("__ZONE__");
    assert("__ZONE__"@[0] == '_');
    assert("__ZONE__"@[1] == '_');
    assert("__ZONE__"@[2] == 'Z');
    assert("__ZONE__"@[3] == 'O');
    assert("__ZONE__"@[4] == 'N');
    assert("__ZONE__"@[5] == 'E');
    assert("__ZONE__"@[6] == '_');
    assert("__ZONE__"@[7] == '_');
    reveal_strlit("us-nyc1");
    assert("us-nyc1"@[0] == 'u');
    assert("us-nyc1"@[1] == 's');
    assert("us-nyc1"@[2] == '-');
    assert("us-nyc1"@[3] == 'n');
    assert("us-nyc1"@[4] == 'y');
    assert("us-nyc1"@[5] == 'c');
    assert("us-nyc1"@[6] == '1');
    reveal_strlit("us-chi1");
    assert("us-chi1"@[0] == 'u');
    assert("us-chi1"@[1] == 's');
    assert("us-chi1"@[2] == '-');
    assert("us-chi1"@[3] == 'c');
    assert("us-chi1"@[4] == 'h');
    assert("us-chi1"@[5] == 'i');
    assert("us-chi1"@[6] == '1');
    reveal_strlit("de-fra1");
    assert("de-fra1"@[0] == 'd');
    assert("de-fra1"@[1] == 'e');
    assert("de-fra1"@[2] == '-');
    assert("de-fra1"@[3] == 'f');
    assert("de-fra1"@[4] == 'r');
    assert("de-fra1"@[5] == 'a');
    assert("de-fra1"@[6] == '1');
    reveal_strlit("fi-hel1");
    assert("fi-hel1"@[0] == 'f');
    assert("fi-hel1"@[1] == 'i');
    assert("fi-hel1"@[2] == '-');
    assert("fi-hel1"@[3] == 'h');
    assert("fi-hel1"@[4] == 'e');
    assert("fi-hel1"@[5] == 'l');
    assert("fi-hel1"@[6] == '1');
    reveal_strlit("sg-sin1");
    assert("sg-sin1"@[0] == 's');
    assert("sg-sin1"@[1] == 'g');
    assert("sg-sin1"@[2] == '-');
    assert("sg-sin1"@[3] == 's');
    assert("sg-sin1"@[4] == 'i');
    assert("sg-sin1"@[5] == 'n');
    assert("sg-sin1"@[6] == '1');
    reveal_strlit("au-syd1");
    assert("au-syd1"@[0] == 'a');
    assert("au-syd1"@[1] == 'u');
    assert("au-syd1"@[2] == '-');
    assert("au-syd1"@[3] == 's');
    assert("au-syd1"@[4] == 'y');
    assert("au-syd1"@[5] == 'd');
    assert("au-syd1"@[6] == '1');
    reveal_strlit("pl-waw1");
    assert("pl-waw1"@[0] == 'p');
    assert("pl-waw1"@[1] == 'l');
    assert("pl-waw1"@[2] == '-');
    assert("pl-waw1"@[3] == 'w');
    assert("pl-waw1"@[4] == 'a');
    assert("pl-waw1"@[5] == 'w');
    assert("pl-waw1"@[6] == '1');
}

/// A value is recognised as an Azure region exactly when it converts to an UpCloud zone.
pub proof fn azure_regions_recognised_are_those_with_a_zone(region: Seq<char>)
    ensures
        spec_is_azure_region(region) <==> spec_azure_region_zone(region) is Some,
{
}

} // verus!
