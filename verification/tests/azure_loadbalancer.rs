use upcloud_migrate::migration::providers::azure::loadbalancer::map_application_gateway;
use upcloud_migrate::migration::providers::azure::loadbalancer::map_lb;
use upcloud_migrate::migration::providers::azure::loadbalancer::map_lb_backend_address_pool;
use upcloud_migrate::migration::providers::azure::loadbalancer::map_lb_backend_address_pool_association;
use upcloud_migrate::migration::providers::azure::loadbalancer::map_lb_probe;
use upcloud_migrate::migration::providers::azure::loadbalancer::map_lb_rule;
use upcloud_migrate::terraform::types::TerraformResource;

    fn make_res(resource_type: &str, name: &str, attrs: &[(&str, &str)]) -> TerraformResource {
        TerraformResource {
            resource_type: resource_type.to_string(),
            name: name.to_string(),
            attributes: attrs
                .iter()
                .map(|(k, v)| (k.to_string(), v.to_string()))
                .collect(),
            source_file: String::from("test.tf"),
            raw_hcl: String::new(),
        }
    }

    fn make_res_with_hcl(resource_type: &str, name: &str, attrs: &[(&str, &str)], raw_hcl: &str) -> TerraformResource {
        TerraformResource {
            resource_type: resource_type.to_string(),
            name: name.to_string(),
            attributes: attrs
                .iter()
                .map(|(k, v)| (k.to_string(), v.to_string()))
                .collect(),
            source_file: String::from("test.tf"),
            raw_hcl: raw_hcl.to_string(),
        }
    }

    #[test]
    fn lb_generates_upcloud_loadbalancer() {
        let res = make_res("azurerm_lb", "main", &[("sku", "Standard")]);
        let r = map_lb(&res);
        assert_eq!(r.upcloud_type, "upcloud_loadbalancer");
        let hcl = r.upcloud_hcl.unwrap();
        assert!(hcl.contains("resource \"upcloud_loadbalancer\" \"main\""), "{hcl}");
        assert!(hcl.contains("configured_status = \"started\""), "{hcl}");
    }

    #[test]
    fn lb_has_public_and_private_networks_blocks() {
        let res = make_res("azurerm_lb", "lb", &[]);
        let hcl = map_lb(&res).upcloud_hcl.unwrap();
        assert!(hcl.contains("type    = \"private\""), "{hcl}");
        assert!(hcl.contains("type   = \"public\""), "{hcl}");
    }

    #[test]
    fn lb_has_network_todo() {
        let res = make_res("azurerm_lb", "lb", &[]);
        let hcl = map_lb(&res).upcloud_hcl.unwrap();
        assert!(hcl.contains("<TODO: upcloud_network reference>"), "{hcl}");
    }

    #[test]
    fn backend_pool_generates_loadbalancer_backend() {
        let res = make_res(
            "azurerm_lb_backend_address_pool",
            "pool",
            &[("loadbalancer_id", "azurerm_lb.main.id")],
        );
        let r = map_lb_backend_address_pool(&res);
        assert_eq!(r.upcloud_type, "upcloud_loadbalancer_backend");
        let hcl = r.upcloud_hcl.unwrap();
        assert!(hcl.contains("resource \"upcloud_loadbalancer_backend\" \"pool\""), "{hcl}");
        assert!(hcl.contains("upcloud_loadbalancer.main.id"), "{hcl}");
    }

    #[test]
    fn backend_pool_without_lb_ref_has_todo() {
        let res = make_res("azurerm_lb_backend_address_pool", "pool", &[]);
        let hcl = map_lb_backend_address_pool(&res).upcloud_hcl.unwrap();
        assert!(hcl.contains("upcloud_loadbalancer.<TODO>.id"), "{hcl}");
    }

    #[test]
    fn backend_pool_has_probe_marker_for_cross_ref_injection() {
        let res = make_res("azurerm_lb_backend_address_pool", "pool", &[]);
        let hcl = map_lb_backend_address_pool(&res).upcloud_hcl.unwrap();
        // The generator will replace # __PROBE_HC__ with actual health check properties.
        assert!(hcl.contains("# __PROBE_HC__"), "{hcl}");
    }

    #[test]
    fn lb_probe_http_is_native_and_has_snippet() {
        let res = make_res_with_hcl(
            "azurerm_lb_probe",
            "health",
            &[("protocol", "Http"), ("request_path", "/health")],
            r#"resource "azurerm_lb_probe" "health" {
  protocol            = "Http"
  port                = 80
  request_path        = "/health"
  interval_in_seconds = 15
  number_of_probes    = 2
}"#,
        );
        let r = map_lb_probe(&res);
        assert_eq!(r.status, upcloud_migrate::migration::types::MigrationStatus::Native);
        let snippet = r.snippet.expect("http probe should have a snippet");
        assert!(snippet.contains("health_check_type     = \"http\""), "{snippet}");
        assert!(snippet.contains("health_check_url      = \"/health\""), "{snippet}");
        assert!(snippet.contains("health_check_interval = 15"), "{snippet}");
        assert!(snippet.contains("health_check_rise     = 2"), "{snippet}");
        assert!(snippet.contains("health_check_fall     = 2"), "{snippet}");
    }

    #[test]
    fn lb_probe_tcp_has_tcp_type() {
        let res = make_res_with_hcl(
            "azurerm_lb_probe",
            "tcp_probe",
            &[("protocol", "Tcp")],
            r#"resource "azurerm_lb_probe" "tcp_probe" {
  protocol = "Tcp"
  port     = 443
}"#,
        );
        let r = map_lb_probe(&res);
        assert_eq!(r.status, upcloud_migrate::migration::types::MigrationStatus::Native);
        let snippet = r.snippet.expect("tcp probe should have a snippet");
        assert!(snippet.contains("health_check_type     = \"tcp\""), "{snippet}");
        // No URL for tcp
        assert!(!snippet.contains("health_check_url"), "{snippet}");
    }

    #[test]
    fn lb_probe_without_attributes_is_native_no_snippet() {
        let res = make_res("azurerm_lb_probe", "empty_probe", &[]);
        let r = map_lb_probe(&res);
        // Default protocol is "Tcp" with no extra attrs — still produces a snippet
        assert_eq!(r.status, upcloud_migrate::migration::types::MigrationStatus::Native);
    }

    #[test]
    fn lb_rule_tcp_protocol_maps_to_tcp_mode() {
        let res = make_res(
            "azurerm_lb_rule",
            "http_rule",
            &[("protocol", "Tcp"), ("frontend_port", "80")],
        );
        let r = map_lb_rule(&res);
        assert_eq!(r.upcloud_type, "upcloud_loadbalancer_frontend");
        let hcl = r.upcloud_hcl.unwrap();
        assert!(hcl.contains("mode                 = \"tcp\""), "{hcl}");
        assert!(hcl.contains("port                 = 80"), "{hcl}");
    }

    #[test]
    fn lb_rule_http_protocol_maps_to_http_mode() {
        let res = make_res(
            "azurerm_lb_rule",
            "rule",
            &[("protocol", "Http"), ("frontend_port", "443")],
        );
        let hcl = map_lb_rule(&res).upcloud_hcl.unwrap();
        assert!(hcl.contains("mode                 = \"http\""), "{hcl}");
    }

    #[test]
    fn lb_rule_resolves_lb_and_backend_from_raw_hcl() {
        let res = make_res_with_hcl(
            "azurerm_lb_rule",
            "http",
            &[("protocol", "Tcp"), ("frontend_port", "80")],
            r#"resource "azurerm_lb_rule" "http" {
  loadbalancer_id          = azurerm_lb.main.id
  protocol                 = "Tcp"
  frontend_port            = 80
  backend_port             = 80
  backend_address_pool_ids = [azurerm_lb_backend_address_pool.web.id]
}"#,
        );
        let hcl = map_lb_rule(&res).upcloud_hcl.unwrap();
        assert!(hcl.contains("upcloud_loadbalancer.main.id"), "{hcl}");
        assert!(hcl.contains("upcloud_loadbalancer_backend.web.name"), "{hcl}");
    }

    #[test]
    fn lb_rule_without_source_hcl_has_todo_refs() {
        let res = make_res(
            "azurerm_lb_rule",
            "rule",
            &[("protocol", "Tcp"), ("frontend_port", "80")],
        );
        let hcl = map_lb_rule(&res).upcloud_hcl.unwrap();
        assert!(hcl.contains("upcloud_loadbalancer.<TODO>.id"), "{hcl}");
        assert!(hcl.contains("upcloud_loadbalancer_backend.<TODO>.name"), "{hcl}");
    }

    #[test]
    fn pool_association_generates_backend_member() {
        let res = make_res(
            "azurerm_lb_backend_address_pool_association",
            "assoc",
            &[("backend_address_pool_id", "azurerm_lb_backend_address_pool.pool.id")],
        );
        let r = map_lb_backend_address_pool_association(&res);
        assert_eq!(r.upcloud_type, "upcloud_loadbalancer_static_backend_member");
        let hcl = r.upcloud_hcl.unwrap();
        assert!(hcl.contains("upcloud_loadbalancer_backend.pool.id"), "{hcl}");
    }

    #[test]
    fn pool_association_no_ref_has_todo() {
        let res = make_res("azurerm_lb_backend_address_pool_association", "a", &[]);
        let hcl = map_lb_backend_address_pool_association(&res).upcloud_hcl.unwrap();
        assert!(hcl.contains("upcloud_loadbalancer_backend.<TODO>.id"), "{hcl}");
    }

    #[test]
    fn pool_association_includes_nic_name_in_ip_hint() {
        let res = make_res_with_hcl(
            "azurerm_lb_backend_address_pool_association",
            "web_assoc",
            &[("backend_address_pool_id", "azurerm_lb_backend_address_pool.web.id")],
            r#"resource "azurerm_lb_backend_address_pool_association" "web_assoc" {
  network_interface_id    = azurerm_network_interface.web.id
  ip_configuration_name   = "internal"
  backend_address_pool_id = azurerm_lb_backend_address_pool.web.id
}"#,
        );
        let hcl = map_lb_backend_address_pool_association(&res).upcloud_hcl.unwrap();
        assert!(hcl.contains("web"), "NIC name 'web' should appear in IP hint\n{hcl}");
    }

    #[test]
    fn application_gateway_is_partial_status() {
        let res = make_res("azurerm_application_gateway", "agw", &[]);
        let r = map_application_gateway(&res);
        assert_eq!(r.status, upcloud_migrate::migration::types::MigrationStatus::Partial);
        assert_eq!(r.upcloud_type, "upcloud_loadbalancer");
    }

    #[test]
    fn application_gateway_resolves_subnet_from_raw_hcl() {
        let raw = "resource \"azurerm_application_gateway\" \"main\" {\n  gateway_ip_configuration {\n    name      = \"gw-ip\"\n    subnet_id = azurerm_subnet.appgw.id\n  }\n}\n";
        let res = make_res_with_hcl("azurerm_application_gateway", "main", &[], raw);
        let hcl = map_application_gateway(&res).upcloud_hcl.unwrap();
        assert!(hcl.contains("upcloud_network.appgw.id"), "subnet should be resolved\n{hcl}");
        assert!(!hcl.contains("<TODO: upcloud_network reference>"), "{hcl}");
    }

    #[test]
    fn application_gateway_generates_backends_and_frontends() {
        let raw = "resource \"azurerm_application_gateway\" \"main\" {\n  gateway_ip_configuration {\n    name      = \"gw-ip\"\n    subnet_id = azurerm_subnet.appgw.id\n  }\n  backend_address_pool {\n    name = \"web-pool\"\n  }\n  probe {\n    name     = \"web-probe\"\n    protocol = \"Http\"\n    path     = \"/health\"\n    interval = 15\n  }\n  backend_http_settings {\n    name       = \"web-settings\"\n    probe_name = \"web-probe\"\n  }\n  request_routing_rule {\n    name                       = \"rule1\"\n    http_listener_name         = \"web-listener\"\n    backend_address_pool_name  = \"web-pool\"\n    backend_http_settings_name = \"web-settings\"\n  }\n  http_listener {\n    name               = \"web-listener\"\n    frontend_port_name = \"http-port\"\n    protocol           = \"Http\"\n  }\n  frontend_port {\n    name = \"http-port\"\n    port = 80\n  }\n}\n";
        let res = make_res_with_hcl("azurerm_application_gateway", "main", &[], raw);
        let hcl = map_application_gateway(&res).upcloud_hcl.unwrap();
        assert!(hcl.contains("upcloud_loadbalancer_backend"), "{hcl}");
        assert!(hcl.contains("upcloud_loadbalancer_frontend"), "{hcl}");
        assert!(hcl.contains("health_check_type     = \"http\""), "{hcl}");
        assert!(hcl.contains("health_check_url      = \"/health\""), "{hcl}");
    }
