use upcloud_migrate::migration::providers::aws::loadbalancer::map_acm_certificate;
use upcloud_migrate::migration::providers::aws::loadbalancer::map_lb;
use upcloud_migrate::migration::providers::aws::loadbalancer::map_lb_listener;
use upcloud_migrate::migration::providers::aws::loadbalancer::map_lb_target_group;
use upcloud_migrate::terraform::types::TerraformResource;

    fn make_res(resource_type: &str, name: &str, attrs: &[(&str, &str)]) -> TerraformResource {
        TerraformResource {
            resource_type: resource_type.to_string(),
            name: name.to_string(),
            attributes: attrs.iter().map(|(k, v)| (k.to_string(), v.to_string())).collect(),
            source_file: String::from("test.tf"),
            raw_hcl: String::new(),
        }
    }

    #[test]
    fn public_lb_generates_public_networks_block() {
        let res = make_res("aws_lb", "main", &[("internal", "false")]);
        let r = map_lb(&res);
        assert_eq!(r.upcloud_type, "upcloud_loadbalancer");
        let hcl = r.upcloud_hcl.unwrap();
        assert!(hcl.contains("resource \"upcloud_loadbalancer\" \"main\""), "{hcl}");
        assert!(hcl.contains("type   = \"public\""), "{hcl}");
        // no deprecated `network = ...` attribute
        assert!(!hcl.contains("network = \"<TODO"), "must not use deprecated network attr\n{hcl}");
    }

    #[test]
    fn internal_lb_generates_private_networks_block_with_todo() {
        let res = make_res("aws_lb", "internal", &[("internal", "true")]);
        let hcl = map_lb(&res).upcloud_hcl.unwrap();
        assert!(hcl.contains("type    = \"private\""), "{hcl}");
        assert!(
            hcl.contains("<TODO: upcloud_network reference>"),
            "internal LB should have network TODO\n{hcl}"
        );
    }

    #[test]
    fn lb_without_internal_attr_defaults_to_public() {
        let res = make_res("aws_lb", "def", &[]);
        let hcl = map_lb(&res).upcloud_hcl.unwrap();
        assert!(hcl.contains("type   = \"public\""), "{hcl}");
    }

    #[test]
    fn lb_has_configured_status_started() {
        let res = make_res("aws_lb", "lb", &[]);
        let hcl = map_lb(&res).upcloud_hcl.unwrap();
        assert!(hcl.contains("configured_status = \"started\""), "{hcl}");
    }

    #[test]
    fn lb_target_group_generates_static_backend_member() {
        let res = make_res("aws_lb_target_group", "web", &[
            ("protocol", "HTTP"),
            ("port", "80"),
        ]);
        let r = map_lb_target_group(&res);
        assert_eq!(r.upcloud_type, "upcloud_loadbalancer_backend");
        let hcl = r.upcloud_hcl.unwrap();
        // CRITICAL: must be static_backend_member, not backend_member
        assert!(
            hcl.contains("upcloud_loadbalancer_static_backend_member"),
            "must use static_backend_member resource type\n{hcl}"
        );
        assert!(
            !hcl.contains("\"upcloud_loadbalancer_backend_member\""),
            "must NOT use deprecated backend_member type\n{hcl}"
        );
    }

    #[test]
    fn lb_target_group_port_propagated() {
        let res = make_res("aws_lb_target_group", "api", &[("port", "8080")]);
        let hcl = map_lb_target_group(&res).upcloud_hcl.unwrap();
        assert!(hcl.contains("port         = 8080"), "{hcl}");
    }

    #[test]
    fn lb_target_group_has_max_sessions() {
        let res = make_res("aws_lb_target_group", "tg", &[]);
        let hcl = map_lb_target_group(&res).upcloud_hcl.unwrap();
        // max_sessions is Required in the provider schema
        assert!(hcl.contains("max_sessions = 1000"), "{hcl}");
    }

    #[test]
    fn lb_target_group_has_lb_cross_ref_todo() {
        let res = make_res("aws_lb_target_group", "tg", &[]);
        let hcl = map_lb_target_group(&res).upcloud_hcl.unwrap();
        assert!(hcl.contains("upcloud_loadbalancer.<TODO>.id"), "{hcl}");
    }

    #[test]
    fn lb_target_group_maps_health_check_properties() {
        let res = make_res("aws_lb_target_group", "web", &[
            ("protocol", "HTTP"),
            ("port", "80"),
            ("health_check.path", "\"/health\""),
            ("health_check.matcher", "\"200\""),
            ("health_check.healthy_threshold", "\"3\""),
            ("health_check.unhealthy_threshold", "\"2\""),
            ("health_check.interval", "\"30\""),
        ]);
        let hcl = map_lb_target_group(&res).upcloud_hcl.unwrap();
        assert!(hcl.contains("health_check_type   = \"http\""), "{hcl}");
        assert!(hcl.contains("health_check_url    = \"/health\""), "{hcl}");
        assert!(hcl.contains("health_check_expected_status = 200"), "{hcl}");
        assert!(hcl.contains("health_check_rise   = 3"), "{hcl}");
        assert!(hcl.contains("health_check_fall   = 2"), "{hcl}");
        assert!(hcl.contains("health_check_interval = 30"), "{hcl}");
    }

    #[test]
    fn lb_target_group_without_health_check_still_has_type() {
        // health_check_type defaults based on protocol even without explicit health_check block
        let res = make_res("aws_lb_target_group", "api", &[("protocol", "HTTP")]);
        let hcl = map_lb_target_group(&res).upcloud_hcl.unwrap();
        assert!(hcl.contains("health_check_type   = \"http\""), "{hcl}");
        assert!(!hcl.contains("health_check_url"), "no url when path not set\n{hcl}");
    }

    #[test]
    fn lb_target_group_tcp_protocol_uses_tcp_health_check() {
        let res = make_res("aws_lb_target_group", "nl", &[("protocol", "TCP")]);
        let hcl = map_lb_target_group(&res).upcloud_hcl.unwrap();
        assert!(hcl.contains("health_check_type   = \"tcp\""), "{hcl}");
    }

    #[test]
    fn lb_listener_generates_frontend() {
        let res = make_res("aws_lb_listener", "http", &[
            ("protocol", "HTTP"),
            ("port", "80"),
        ]);
        let r = map_lb_listener(&res);
        assert_eq!(r.upcloud_type, "upcloud_loadbalancer_frontend");
        let hcl = r.upcloud_hcl.unwrap();
        assert!(hcl.contains("resource \"upcloud_loadbalancer_frontend\" \"http\""), "{hcl}");
        assert!(hcl.contains("port                 = 80"), "{hcl}");
    }

    #[test]
    fn lb_listener_has_lb_and_backend_cross_ref_todos() {
        let res = make_res("aws_lb_listener", "lst", &[]);
        let hcl = map_lb_listener(&res).upcloud_hcl.unwrap();
        assert!(hcl.contains("upcloud_loadbalancer.<TODO>.id"), "{hcl}");
        assert!(hcl.contains("upcloud_loadbalancer_backend.<TODO>.name"), "{hcl}");
    }

    #[test]
    fn acm_cert_generates_manual_cert_bundle() {
        let res = make_res("aws_acm_certificate", "cert", &[]);
        let r = map_acm_certificate(&res);
        assert_eq!(r.upcloud_type, "upcloud_loadbalancer_manual_certificate_bundle");
        let hcl = r.upcloud_hcl.unwrap();
        assert!(hcl.contains("resource \"upcloud_loadbalancer_manual_certificate_bundle\" \"cert\""), "{hcl}");
    }

    #[test]
    fn acm_cert_has_certificate_and_private_key_todos() {
        let res = make_res("aws_acm_certificate", "cert", &[]);
        let hcl = map_acm_certificate(&res).upcloud_hcl.unwrap();
        assert!(hcl.contains("<TODO: base64 encoded certificate>"), "{hcl}");
        assert!(hcl.contains("<TODO: base64 encoded private key>"), "{hcl}");
    }

    #[test]
    fn acm_cert_is_partial_status() {
        let res = make_res("aws_acm_certificate", "cert", &[]);
        assert_eq!(
            map_acm_certificate(&res).status,
            upcloud_migrate::migration::types::MigrationStatus::Partial
        );
    }
