use upcloud_migrate::migration::providers::azure::var_detector::{azure_region_to_upcloud_zone, AzureVarDetector};
use upcloud_migrate::migration::var_detector::{VarDetector, VarKind};

// ── azure_region_to_upcloud_zone ──────────────────────────────────────────

#[test]
fn eastus_maps_to_us_nyc1() {
    assert_eq!(azure_region_to_upcloud_zone("eastus"), Some("us-nyc1"));
}

#[test]
fn eastus2_maps_to_us_nyc1() {
    assert_eq!(azure_region_to_upcloud_zone("eastus2"), Some("us-nyc1"));
}

#[test]
fn westus_maps_to_us_chi1() {
    assert_eq!(azure_region_to_upcloud_zone("westus"), Some("us-chi1"));
}

#[test]
fn swedencentral_maps_to_fi_hel1() {
    assert_eq!(
        azure_region_to_upcloud_zone("swedencentral"),
        Some("fi-hel1")
    );
}

#[test]
fn norwayeast_maps_to_fi_hel1() {
    assert_eq!(azure_region_to_upcloud_zone("norwayeast"), Some("fi-hel1"));
}

#[test]
fn southeastasia_maps_to_sg_sin1() {
    assert_eq!(
        azure_region_to_upcloud_zone("southeastasia"),
        Some("sg-sin1")
    );
}

#[test]
fn australiaeast_maps_to_au_syd1() {
    assert_eq!(
        azure_region_to_upcloud_zone("australiaeast"),
        Some("au-syd1")
    );
}

#[test]
fn unknown_region_returns_none() {
    assert_eq!(azure_region_to_upcloud_zone("middleofnowhere"), None);
}

// ── AzureVarDetector — VM size detection ──────────────────────────────────

#[test]
fn detects_vm_size_from_default_value() {
    let det = AzureVarDetector;
    let results = det.detect("instance_size", Some("Standard_B2s"), None, &[]);
    assert!(!results.is_empty(), "should detect a VM size variable");
    let conv = &results[0];
    assert_eq!(conv.kind, VarKind::InstanceType);
    assert_eq!(conv.converted_value.as_deref(), Some("2xCPU-4GB"));
}

#[test]
fn detects_vm_size_from_usage_attr() {
    let det = AzureVarDetector;
    let results = det.detect("my_var", None, None, &["size".to_string()]);
    assert!(!results.is_empty(), "should detect from 'size' usage attr");
    assert_eq!(results[0].kind, VarKind::InstanceType);
}

#[test]
fn detects_vm_size_from_vm_size_usage_attr() {
    let det = AzureVarDetector;
    let results = det.detect("my_var", None, None, &["vm_size".to_string()]);
    assert!(
        !results.is_empty(),
        "should detect from 'vm_size' usage attr"
    );
    assert_eq!(results[0].kind, VarKind::InstanceType);
}

#[test]
fn detects_vm_size_from_variable_name() {
    let det = AzureVarDetector;
    let results = det.detect("vm_size", None, None, &[]);
    assert!(
        !results.is_empty(),
        "variable name 'vm_size' should trigger detection"
    );
    assert_eq!(results[0].kind, VarKind::InstanceType);
}

#[test]
fn d4s_v5_default_converts_to_correct_plan() {
    let det = AzureVarDetector;
    let results = det.detect("size", Some("Standard_D4s_v5"), None, &[]);
    assert!(!results.is_empty());
    assert_eq!(results[0].converted_value.as_deref(), Some("4xCPU-8GB"));
}

// ── AzureVarDetector — region detection ───────────────────────────────────

#[test]
fn detects_region_from_default_value() {
    let det = AzureVarDetector;
    let results = det.detect("deploy_region", Some("eastus"), None, &[]);
    assert!(!results.is_empty(), "should detect an Azure region");
    let conv = &results[0];
    assert_eq!(conv.kind, VarKind::Region);
    assert_eq!(conv.converted_value.as_deref(), Some("us-nyc1"));
}

#[test]
fn detects_region_from_location_usage_attr() {
    let det = AzureVarDetector;
    let results = det.detect("my_var", None, None, &["location".to_string()]);
    assert!(
        !results.is_empty(),
        "should detect from 'location' usage attr"
    );
    assert_eq!(results[0].kind, VarKind::Region);
}

#[test]
fn detects_region_from_variable_name_containing_location() {
    let det = AzureVarDetector;
    let results = det.detect("azure_location", None, None, &[]);
    assert!(
        !results.is_empty(),
        "variable name 'azure_location' should trigger detection"
    );
    assert_eq!(results[0].kind, VarKind::Region);
}

#[test]
fn unknown_default_value_returns_no_results() {
    let det = AzureVarDetector;
    let results = det.detect("my_flag", Some("true"), None, &[]);
    assert!(
        results.is_empty(),
        "unrecognised default should return nothing"
    );
}
