use upcloud_migrate::migration::providers::azure::generator_support::extract_appgw_named_blocks;
use upcloud_migrate::migration::providers::azure::generator_support::extract_appgw_subnet_ref;
use upcloud_migrate::migration::providers::azure::generator_support::extract_backend_pool_from_lb_rule_hcl;
use upcloud_migrate::migration::providers::azure::generator_support::extract_backend_pool_server_from_association_hcl;
use upcloud_migrate::migration::providers::azure::generator_support::extract_lb_name_from_rule_hcl;
use upcloud_migrate::migration::providers::azure::generator_support::extract_nsg_refs_from_instance_hcl;
use upcloud_migrate::migration::providers::azure::generator_support::extract_subnet_from_instance_hcl;
use upcloud_migrate::migration::providers::azure::generator_support::generate_appgw_sub_resources;
use upcloud_migrate::migration::providers::azure::generator_support::rewrite_output_refs;
use upcloud_migrate::migration::providers::azure::generator_support::sanitize_azure_refs;
use upcloud_migrate::migration::providers::azure::generator_support::upcloud_attr_for;
use upcloud_migrate::migration::providers::azure::generator_support::upcloud_type_for_azure;

    #[test]
    fn extracts_nsg_name_from_instance_hcl() {
        let hcl = "resource \"azurerm_linux_virtual_machine\" \"web\" {\n  network_security_group_id = azurerm_network_security_group.web_nsg.id\n}\n";
        let refs = extract_nsg_refs_from_instance_hcl(hcl);
        assert!(refs.contains(&"web_nsg".to_string()), "should extract NSG name: {refs:?}");
    }

    #[test]
    fn extracts_multiple_nsg_refs() {
        let hcl = "  network_security_group_id = azurerm_network_security_group.nsg_a.id\n  network_security_group_id = azurerm_network_security_group.nsg_b.id\n";
        let refs = extract_nsg_refs_from_instance_hcl(hcl);
        assert!(refs.contains(&"nsg_a".to_string()), "{refs:?}");
        assert!(refs.contains(&"nsg_b".to_string()), "{refs:?}");
    }

    #[test]
    fn returns_empty_when_no_nsg_refs() {
        let refs = extract_nsg_refs_from_instance_hcl("resource \"azurerm_linux_virtual_machine\" \"web\" {}");
        assert!(refs.is_empty());
    }

    #[test]
    fn extracts_subnet_name_from_instance_hcl() {
        let hcl = "resource \"azurerm_linux_virtual_machine\" \"web\" {\n  network_interface_ids = [azurerm_network_interface.nic.id]\n}\nresource \"azurerm_network_interface\" \"nic\" {\n  ip_configuration {\n    subnet_id = azurerm_subnet.app_subnet.id\n  }\n}\n";
        let result = extract_subnet_from_instance_hcl(hcl);
        assert_eq!(result, Some("app_subnet".to_string()));
    }

    #[test]
    fn returns_none_when_no_subnet_ref() {
        let result = extract_subnet_from_instance_hcl("resource \"azurerm_linux_virtual_machine\" \"web\" {}");
        assert!(result.is_none());
    }

    #[test]
    fn extracts_pool_and_server_from_association_hcl() {
        let hcl = "resource \"azurerm_lb_backend_address_pool_association\" \"assoc\" {\n  backend_address_pool_id = azurerm_lb_backend_address_pool.pool.id\n  network_interface_id    = azurerm_network_interface.web_nic.id\n}\n";
        let result = extract_backend_pool_server_from_association_hcl(hcl);
        assert_eq!(result, Some(("pool".to_string(), "web_nic".to_string())));
    }

    #[test]
    fn returns_none_when_association_hcl_incomplete() {
        let result = extract_backend_pool_server_from_association_hcl("resource {} ");
        assert!(result.is_none());
    }

    #[test]
    fn extracts_backend_pool_from_lb_rule_hcl() {
        let hcl = "resource \"azurerm_lb_rule\" \"rule\" {\n  backend_address_pool_ids = [azurerm_lb_backend_address_pool.pool.id]\n}\n";
        let result = extract_backend_pool_from_lb_rule_hcl(hcl);
        assert_eq!(result, Some("pool".to_string()));
    }

    #[test]
    fn extracts_lb_name_from_rule_hcl() {
        let hcl = "resource \"azurerm_lb_rule\" \"rule\" {\n  loadbalancer_id = azurerm_lb.main.id\n}\n";
        let result = extract_lb_name_from_rule_hcl(hcl);
        assert_eq!(result, Some("main".to_string()));
    }

    #[test]
    fn sanitize_removes_azurerm_resource_refs() {
        let input = "value = azurerm_linux_virtual_machine.web.id".to_string();
        let out = sanitize_azure_refs(input);
        assert!(out.contains("<TODO: remove Azure resource ref>"), "{out}");
        assert!(!out.contains("azurerm_linux_virtual_machine"), "{out}");
    }

    #[test]
    fn sanitize_removes_data_source_refs() {
        let input = "value = data.azurerm_subscription.current.id".to_string();
        let out = sanitize_azure_refs(input);
        assert!(out.contains("<TODO: remove Azure data source ref>"), "{out}");
    }

    #[test]
    fn sanitize_plain_azurerm_type_without_dots_is_not_replaced() {
        // A bare resource type name (no dot, not a reference) should remain unchanged
        let input = "resource \"azurerm_subnet\" \"s\" {}".to_string();
        let out = sanitize_azure_refs(input.clone());
        assert!(!out.contains("<TODO: remove Azure resource ref>"), "{out}");
    }

    #[test]
    fn azure_vm_maps_to_upcloud_server() {
        assert_eq!(
            upcloud_type_for_azure("azurerm_linux_virtual_machine"),
            Some("upcloud_server")
        );
        assert_eq!(
            upcloud_type_for_azure("azurerm_windows_virtual_machine"),
            Some("upcloud_server")
        );
    }

    #[test]
    fn azure_lb_maps_to_upcloud_loadbalancer() {
        assert_eq!(upcloud_type_for_azure("azurerm_lb"), Some("upcloud_loadbalancer"));
    }

    #[test]
    fn azure_vnet_maps_to_upcloud_router() {
        assert_eq!(upcloud_type_for_azure("azurerm_virtual_network"), Some("upcloud_router"));
    }

    #[test]
    fn azure_subnet_maps_to_upcloud_network() {
        assert_eq!(upcloud_type_for_azure("azurerm_subnet"), Some("upcloud_network"));
    }

    #[test]
    fn azure_redis_maps_to_upcloud_valkey() {
        assert_eq!(
            upcloud_type_for_azure("azurerm_redis_cache"),
            Some("upcloud_managed_database_valkey")
        );
    }

    #[test]
    fn unknown_azure_type_returns_none() {
        assert_eq!(upcloud_type_for_azure("azurerm_something_unknown"), None);
    }

    #[test]
    fn server_id_maps_to_id() {
        assert_eq!(upcloud_attr_for("upcloud_server", "id"), Some("id"));
    }

    #[test]
    fn server_public_ip_maps_to_network_interface_0() {
        assert_eq!(
            upcloud_attr_for("upcloud_server", "public_ip_address"),
            Some("network_interface[0].ip_address")
        );
    }

    #[test]
    fn managed_db_fqdn_maps_to_service_host() {
        assert_eq!(
            upcloud_attr_for("upcloud_managed_database_postgresql", "fqdn"),
            Some("service_host")
        );
    }

    #[test]
    fn unknown_attr_returns_none() {
        assert_eq!(upcloud_attr_for("upcloud_server", "nonexistent_attr"), None);
    }

    #[test]
    fn rewrite_output_refs_resource_group_becomes_null() {
        let input = "value = azurerm_resource_group.main.name";
        let result = rewrite_output_refs(input);
        assert!(result.contains("null"), "{result}");
        assert!(result.contains("no UpCloud equivalent"), "{result}");
        assert!(!result.contains("<TODO:"), "{result}");
    }

    #[test]
    fn appgw_subnet_ref_extracted() {
        let hcl = "  gateway_ip_configuration {\n    name      = \"gw-ip-config\"\n    subnet_id = azurerm_subnet.appgw.id\n  }\n";
        assert_eq!(
            extract_appgw_subnet_ref(hcl),
            Some("upcloud_network.appgw.id".to_string())
        );
    }

    #[test]
    fn appgw_sub_resources_empty_hcl_returns_empty() {
        assert!(generate_appgw_sub_resources("main", "").is_empty());
    }

    #[test]
    fn appgw_sub_resources_backends_with_health_check() {
        let hcl = "  backend_address_pool {\n    name = \"web-pool\"\n  }\n  probe {\n    name     = \"web-probe\"\n    protocol = \"Http\"\n    path     = \"/health\"\n    interval = 15\n  }\n  backend_http_settings {\n    name       = \"web-settings\"\n    probe_name = \"web-probe\"\n  }\n  request_routing_rule {\n    name                       = \"rule1\"\n    http_listener_name         = \"web-listener\"\n    backend_address_pool_name  = \"web-pool\"\n    backend_http_settings_name = \"web-settings\"\n  }\n  http_listener {\n    name               = \"web-listener\"\n    frontend_port_name = \"http-port\"\n    protocol           = \"Http\"\n  }\n  frontend_port {\n    name = \"http-port\"\n    port = 80\n  }\n";
        let result = generate_appgw_sub_resources("main", hcl);
        assert!(result.contains("upcloud_loadbalancer_backend"), "{result}");
        assert!(result.contains("health_check_type     = \"http\""), "{result}");
        assert!(result.contains("health_check_url      = \"/health\""), "{result}");
        assert!(result.contains("upcloud_loadbalancer_backend.web_pool.name"), "{result}");
    }

    #[test]
    fn appgw_sub_resources_https_generates_tls_config() {
        let hcl = "  backend_address_pool {\n    name = \"api-pool\"\n  }\n  backend_http_settings {\n    name = \"api-settings\"\n  }\n  ssl_certificate {\n    name = \"my-cert\"\n  }\n  request_routing_rule {\n    name                       = \"rule1\"\n    http_listener_name         = \"api-listener\"\n    backend_address_pool_name  = \"api-pool\"\n    backend_http_settings_name = \"api-settings\"\n  }\n  http_listener {\n    name                 = \"api-listener\"\n    frontend_port_name   = \"https-port\"\n    protocol             = \"Https\"\n    ssl_certificate_name = \"my-cert\"\n  }\n  frontend_port {\n    name = \"https-port\"\n    port = 443\n  }\n";
        let result = generate_appgw_sub_resources("main", hcl);
        assert!(result.contains("upcloud_loadbalancer_frontend_tls_config"), "{result}");
        assert!(result.contains("my-cert"), "{result}");
        assert!(result.contains("upcloud_tls_certificate"), "{result}");
    }

    #[test]
    fn appgw_sub_resources_redirect_generates_frontend_rule() {
        let hcl = "  http_listener {\n    name               = \"http-listener\"\n    frontend_port_name = \"http-port\"\n    protocol           = \"Http\"\n  }\n  request_routing_rule {\n    name                        = \"redirect-rule\"\n    http_listener_name          = \"http-listener\"\n    redirect_configuration_name = \"http-to-https\"\n  }\n  frontend_port {\n    name = \"http-port\"\n    port = 80\n  }\n";
        let result = generate_appgw_sub_resources("main", hcl);
        assert!(result.contains("upcloud_loadbalancer_frontend_rule"), "{result}");
        assert!(result.contains("http_redirect"), "{result}");
        assert!(result.contains("scheme = \"https\""), "{result}");
    }

#[test]
fn appgw_named_blocks_extracted_correctly() {
    let hcl = "  probe {\n    name     = \"my-probe\"\n    protocol = \"Http\"\n  }\n";
    let blocks = extract_appgw_named_blocks(hcl, "probe");
    assert_eq!(blocks.len(), 1, "{blocks:?}");
    assert_eq!(blocks[0].0, "my-probe");
}

#[test]
fn appgw_named_blocks_skips_non_block_occurrences() {
    // "probe_name = ..." should not be treated as a probe block
    let hcl = "  backend_http_settings {\n    name       = \"settings\"\n    probe_name = \"my-probe\"\n  }\n";
    let blocks = extract_appgw_named_blocks(hcl, "probe");
    assert!(blocks.is_empty(), "should not match probe_name: {blocks:?}");
}
