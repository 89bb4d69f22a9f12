use upcloud_migrate::migration::providers::azure::compute::map_linux_virtual_machine;
use upcloud_migrate::migration::providers::azure::compute::map_windows_virtual_machine;
use upcloud_migrate::terraform::types::TerraformResource;

    fn make_res(resource_type: &str, name: &str, attrs: &[(&str, &str)]) -> TerraformResource {
        TerraformResource {
            resource_type: resource_type.to_string(),
            name: name.to_string(),
            attributes: attrs
                .iter()
                .map(|(k, v)| (k.to_string(), v.to_string()))
                .collect(),
            source_file: String::from("test.tf"),
            raw_hcl: String::new(),
        }
    }

    #[test]
    fn linux_vm_generates_upcloud_server() {
        let res = make_res("azurerm_linux_virtual_machine", "web", &[("size", "Standard_B2s")]);
        let r = map_linux_virtual_machine(&res);
        assert_eq!(r.upcloud_type, "upcloud_server");
        assert_eq!(r.resource_name, "web");
        let hcl = r.upcloud_hcl.unwrap();
        assert!(hcl.contains("resource \"upcloud_server\" \"web\""), "{hcl}");
        assert!(hcl.contains("plan     = \"2xCPU-4GB\""), "{hcl}");
    }

    #[test]
    fn linux_vm_maps_eastus_location_to_zone() {
        let res = make_res(
            "azurerm_linux_virtual_machine",
            "app",
            &[("size", "Standard_B2s"), ("location", "eastus")],
        );
        let hcl = map_linux_virtual_machine(&res).upcloud_hcl.unwrap();
        assert!(hcl.contains("zone     = \"us-nyc1\""), "{hcl}");
    }

    #[test]
    fn linux_vm_maps_swedencentral_to_fi_hel1() {
        let res = make_res(
            "azurerm_linux_virtual_machine",
            "app",
            &[("size", "Standard_B2s"), ("location", "swedencentral")],
        );
        let hcl = map_linux_virtual_machine(&res).upcloud_hcl.unwrap();
        assert!(hcl.contains("zone     = \"fi-hel1\""), "{hcl}");
    }

    #[test]
    fn linux_vm_unknown_location_uses_placeholder() {
        let res = make_res(
            "azurerm_linux_virtual_machine",
            "app",
            &[("size", "Standard_B2s"), ("location", "unknownplace")],
        );
        let hcl = map_linux_virtual_machine(&res).upcloud_hcl.unwrap();
        assert!(hcl.contains("__ZONE__"), "{hcl}");
    }

    #[test]
    fn linux_vm_always_has_firewall_true() {
        let res = make_res("azurerm_linux_virtual_machine", "vm", &[]);
        let hcl = map_linux_virtual_machine(&res).upcloud_hcl.unwrap();
        assert!(hcl.contains("firewall = true"), "{hcl}");
    }

    #[test]
    fn linux_vm_with_variable_size_emits_unquoted() {
        let res = make_res(
            "azurerm_linux_virtual_machine",
            "vm",
            &[("size", "var.vm_size")],
        );
        let hcl = map_linux_virtual_machine(&res).upcloud_hcl.unwrap();
        assert!(hcl.contains("plan     = var.vm_size"), "{hcl}");
        assert!(!hcl.contains("\"var.vm_size\""), "{hcl}");
    }

    #[test]
    fn linux_vm_unknown_size_falls_back_to_default_plan() {
        let res = make_res(
            "azurerm_linux_virtual_machine",
            "vm",
            &[("size", "Standard_UNKNOWN_X9")],
        );
        let hcl = map_linux_virtual_machine(&res).upcloud_hcl.unwrap();
        assert!(hcl.contains("2xCPU-4GB"), "{hcl}");
    }

    #[test]
    fn linux_vm_has_login_block() {
        let res = make_res("azurerm_linux_virtual_machine", "vm", &[]);
        let hcl = map_linux_virtual_machine(&res).upcloud_hcl.unwrap();
        assert!(hcl.contains("login {"), "{hcl}");
        assert!(hcl.contains("keys = [\"<TODO: paste SSH public key>\"]"), "{hcl}");
    }

    #[test]
    fn windows_vm_generates_upcloud_server() {
        let res = make_res(
            "azurerm_windows_virtual_machine",
            "win",
            &[("size", "Standard_D4s_v3")],
        );
        let r = map_windows_virtual_machine(&res);
        assert_eq!(r.upcloud_type, "upcloud_server");
        let hcl = r.upcloud_hcl.unwrap();
        assert!(hcl.contains("resource \"upcloud_server\" \"win\""), "{hcl}");
        assert!(hcl.contains("4xCPU-8GB"), "{hcl}");
    }

    #[test]
    fn windows_vm_has_firewall_true() {
        let res = make_res("azurerm_windows_virtual_machine", "win", &[]);
        let hcl = map_windows_virtual_machine(&res).upcloud_hcl.unwrap();
        assert!(hcl.contains("firewall = true"), "{hcl}");
    }
