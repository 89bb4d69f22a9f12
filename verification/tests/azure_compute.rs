use upcloud_migrate::migration::providers::azure::compute::azure_vm_size_to_upcloud_plan;

// ── azure_vm_size_to_upcloud_plan ─────────────────────────────────────────

#[test]
fn b1s_maps_to_1cpu_1gb() {
    assert_eq!(azure_vm_size_to_upcloud_plan("Standard_B1s"), Some("1xCPU-1GB"));
}

#[test]
fn b2s_maps_to_2cpu_4gb() {
    assert_eq!(azure_vm_size_to_upcloud_plan("Standard_B2s"), Some("2xCPU-4GB"));
}

#[test]
fn d4s_v3_maps_to_4cpu_8gb() {
    assert_eq!(azure_vm_size_to_upcloud_plan("Standard_D4s_v3"), Some("4xCPU-8GB"));
}

#[test]
fn d8s_v5_maps_to_8cpu_32gb() {
    assert_eq!(azure_vm_size_to_upcloud_plan("Standard_D8s_v5"), Some("8xCPU-32GB"));
}

#[test]
fn e4s_v3_maps_to_4cpu_16gb() {
    assert_eq!(azure_vm_size_to_upcloud_plan("Standard_E4s_v3"), Some("4xCPU-16GB"));
}

#[test]
fn f8s_v2_maps_to_6cpu_16gb() {
    assert_eq!(azure_vm_size_to_upcloud_plan("Standard_F8s_v2"), Some("6xCPU-16GB"));
}

#[test]
fn unknown_vm_size_returns_none() {
    assert_eq!(azure_vm_size_to_upcloud_plan("Standard_X99_MEGA"), None);
}
