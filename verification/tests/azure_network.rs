use upcloud_migrate::migration::providers::azure::network::map_network_security_group;
use upcloud_migrate::migration::providers::azure::network::map_public_ip;
use upcloud_migrate::migration::providers::azure::network::map_subnet;
use upcloud_migrate::migration::providers::azure::network::map_virtual_network;
use upcloud_migrate::terraform::types::TerraformResource;

    fn make_res(resource_type: &str, name: &str, attrs: &[(&str, &str)]) -> TerraformResource {
        TerraformResource {
            resource_type: resource_type.to_string(),
            name: name.to_string(),
            attributes: attrs
                .iter()
                .map(|(k, v)| (k.to_string(), v.to_string()))
                .collect(),
            source_file: String::from("test.tf"),
            raw_hcl: String::new(),
        }
    }

    #[test]
    fn vnet_generates_router_only() {
        let res = make_res("azurerm_virtual_network", "main", &[]);
        let r = map_virtual_network(&res);
        assert_eq!(r.upcloud_type, "upcloud_router");
        let hcl = r.upcloud_hcl.unwrap();
        assert!(hcl.contains("resource \"upcloud_router\" \"main_router\""), "{hcl}");
        assert!(!hcl.contains("upcloud_network"), "VNet must not produce upcloud_network\n{hcl}");
        assert!(!hcl.contains("ip_network"), "{hcl}");
    }

    #[test]
    fn vnet_status_is_compatible() {
        let res = make_res("azurerm_virtual_network", "vnet", &[]);
        assert_eq!(
            map_virtual_network(&res).status,
            upcloud_migrate::migration::types::MigrationStatus::Compatible
        );
    }

    #[test]
    fn subnet_generates_upcloud_network_with_cidr() {
        let res = make_res(
            "azurerm_subnet",
            "app_subnet",
            &[("address_prefixes", "10.0.1.0/24")],
        );
        let r = map_subnet(&res);
        assert_eq!(r.upcloud_type, "upcloud_network");
        let hcl = r.upcloud_hcl.unwrap();
        assert!(hcl.contains("resource \"upcloud_network\" \"app_subnet\""), "{hcl}");
        assert!(hcl.contains("10.0.1.0/24"), "{hcl}");
    }

    #[test]
    fn subnet_with_vnet_ref_links_router() {
        let res = make_res(
            "azurerm_subnet",
            "web",
            &[
                ("address_prefixes", "10.0.2.0/24"),
                ("virtual_network_name", "azurerm_virtual_network.main.name"),
            ],
        );
        let hcl = map_subnet(&res).upcloud_hcl.unwrap();
        assert!(hcl.contains("upcloud_router.main_router.id"), "{hcl}");
    }

    #[test]
    fn subnet_without_vnet_has_router_todo() {
        let res = make_res(
            "azurerm_subnet",
            "orphan",
            &[("address_prefixes", "10.0.3.0/24")],
        );
        let hcl = map_subnet(&res).upcloud_hcl.unwrap();
        assert!(hcl.contains("<TODO: router id>"), "{hcl}");
    }

    #[test]
    fn azure_network_subnet_has_exactly_one_ip_network_block() {
        let res = make_res(
            "azurerm_subnet",
            "s",
            &[("address_prefixes", "10.0.4.0/24")],
        );
        let hcl = map_subnet(&res).upcloud_hcl.unwrap();
        assert_eq!(hcl.matches("ip_network").count(), 1, "must have exactly 1 ip_network block\n{hcl}");
    }

    #[test]
    fn subnet_snippet_is_none() {
        let res = make_res("azurerm_subnet", "s", &[("address_prefixes", "10.0.5.0/24")]);
        assert!(map_subnet(&res).snippet.is_none(), "subnets are standalone resources, not snippets");
    }

    #[test]
    fn nsg_generates_upcloud_firewall_rules() {
        let res = make_res("azurerm_network_security_group", "nsg", &[]);
        let r = map_network_security_group(&res);
        assert_eq!(r.upcloud_type, "upcloud_firewall_rules");
        let hcl = r.upcloud_hcl.unwrap();
        assert!(hcl.contains("resource \"upcloud_firewall_rules\" \"nsg\""), "{hcl}");
    }

    #[test]
    fn nsg_always_includes_default_egress_allow_all() {
        let res = make_res("azurerm_network_security_group", "nsg", &[]);
        let hcl = map_network_security_group(&res).upcloud_hcl.unwrap();
        assert!(hcl.contains("direction = \"out\""), "{hcl}");
        assert!(hcl.contains("action    = \"accept\""), "{hcl}");
    }

    #[test]
    fn public_ip_generates_floating_ip() {
        let res = make_res("azurerm_public_ip", "myip", &[]);
        let r = map_public_ip(&res);
        assert_eq!(r.upcloud_type, "upcloud_floating_ip_address");
        let hcl = r.upcloud_hcl.unwrap();
        assert!(hcl.contains("resource \"upcloud_floating_ip_address\" \"myip\""), "{hcl}");
    }
