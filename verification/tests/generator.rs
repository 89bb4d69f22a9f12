use upcloud_migrate::migration::mapper::map_resource;
use upcloud_migrate::migration::providers::{SourceProvider, aws::AwsSourceProvider};
use upcloud_migrate::migration::generator::build_merged_fw_hcl;
use upcloud_migrate::migration::generator::extract_count_from_hcl;
use upcloud_migrate::migration::generator::extract_fw_rule_blocks;
use upcloud_migrate::migration::generator::resolve_firewall_server;
use upcloud_migrate::migration::generator::server_name_from_server_id_expr;
use upcloud_migrate::migration::providers::aws::generator_support::rewrite_output_refs;
use upcloud_migrate::migration::types::MigrationResult;
use upcloud_migrate::migration::types::MigrationStatus;
use upcloud_migrate::terraform::types::TerraformResource;

    #[test]
    fn extract_count_finds_count_line() {
        let hcl =
            "resource \"upcloud_server\" \"web\" {\n  count    = 2\n  hostname = \"web\"\n}\n";
        assert_eq!(extract_count_from_hcl(hcl), Some("2".to_string()));
    }

    #[test]
    fn extract_count_returns_none_when_absent() {
        let hcl = "resource \"upcloud_server\" \"web\" {\n  hostname = \"web\"\n}\n";
        assert_eq!(extract_count_from_hcl(hcl), None);
    }

    #[test]
    fn resolve_firewall_no_match_leaves_todo() {
        let hcl = "resource \"upcloud_firewall_rules\" \"lb\" {\n  server_id = upcloud_server.<TODO>.id\n}\n";
        let map = Vec::new();
        let out = resolve_firewall_server(hcl, "lb", &map);
        assert!(out.contains("upcloud_server.<TODO>.id"), "{out}");
    }

    #[test]
    fn firewall_to_server_map_resolves_mismatched_names() {
        let provider = AwsSourceProvider;
        // docker_demo firewall is attached to docker_server instance via vpc_security_group_ids.
        let instance_hcl = "resource \"aws_instance\" \"docker_server\" {\n  vpc_security_group_ids = [aws_security_group.docker_demo.id]\n}\n";
        let refs = provider.extract_security_refs_from_instance(instance_hcl);
        assert!(
            refs.contains(&"docker_demo".to_string()),
            "should extract firewall name: {refs:?}"
        );

        // When the firewall_to_server_map is used, the firewall rule should resolve to docker_server.
        let fw_hcl = "resource \"upcloud_firewall_rules\" \"docker_demo\" {\n  server_id = upcloud_server.<TODO>.id\n}\n";
        let mut server_map = Vec::new();
        server_map.push(("docker_server".to_string(), None));
        // effective_server comes from firewall_to_server_map lookup
        let effective_server = "docker_server";
        let out = resolve_firewall_server(fw_hcl, effective_server, &server_map);
        assert!(
            out.contains("upcloud_server.docker_server.id"),
            "should resolve to docker_server: {out}"
        );
        assert!(!out.contains("<TODO>"), "no TODO should remain: {out}");
    }

    #[test]
    fn resolve_firewall_single_server_no_count() {
        let hcl = "resource \"upcloud_firewall_rules\" \"redis\" {\n  server_id = upcloud_server.<TODO>.id\n}\n";
        let mut map = Vec::new();
        map.push(("redis".to_string(), None));
        let out = resolve_firewall_server(hcl, "redis", &map);
        assert!(out.contains("upcloud_server.redis.id"), "{out}");
        assert!(!out.contains("<TODO>"), "{out}");
        assert!(!out.contains("count"), "{out}");
    }

    #[test]
    fn resolve_firewall_counted_server_injects_count_and_index() {
        let hcl = "resource \"upcloud_firewall_rules\" \"web\" {\n  server_id = upcloud_server.<TODO>.id\n}\n";
        let mut map = Vec::new();
        map.push(("web".to_string(), Some("2".to_string())));
        let out = resolve_firewall_server(hcl, "web", &map);
        assert!(out.contains("count     = 2"), "{out}");
        assert!(out.contains("upcloud_server.web[count.index].id"), "{out}");
        assert!(!out.contains("<TODO>"), "{out}");
    }

    #[test]
    fn extract_fw_rule_blocks_returns_all_rules() {
        let hcl = r#"resource "upcloud_firewall_rules" "web" {
  server_id = upcloud_server.web.id

  firewall_rule {
    direction = "in"
    action    = "accept"
    family    = "IPv4"
  }

  firewall_rule {
    direction = "out"
    action    = "accept"
    family    = "IPv4"
  }
}
"#;
        let blocks = extract_fw_rule_blocks(hcl);
        assert_eq!(
            blocks.len(),
            2,
            "should extract 2 rule blocks: {:?}",
            blocks
        );
        assert!(blocks[0].contains("direction = \"in\""), "{:?}", blocks[0]);
        assert!(blocks[1].contains("direction = \"out\""), "{:?}", blocks[1]);
    }

    #[test]
    fn build_merged_fw_hcl_deduplicates_identical_blocks() {
        let outbound = "  firewall_rule {\n    direction = \"out\"\n    action = \"accept\"\n  }\n";
        let inbound = "  firewall_rule {\n    direction = \"in\"\n    action = \"accept\"\n  }\n";
        let blocks = vec![
            outbound.to_string(),
            inbound.to_string(),
            outbound.to_string(), // duplicate
        ];
        let merged = build_merged_fw_hcl("web_sg", "upcloud_server.web.id", None, &blocks);
        let outbound_count = merged.matches("direction = \"out\"").count();
        assert_eq!(
            outbound_count, 1,
            "duplicate outbound rule must be deduplicated\n{merged}"
        );
        assert!(merged.contains("direction = \"in\""), "{merged}");
    }

    #[test]
    fn server_name_from_server_id_expr_plain() {
        assert_eq!(
            server_name_from_server_id_expr("upcloud_server.myserver.id"),
            "myserver"
        );
    }

    #[test]
    fn server_name_from_server_id_expr_counted() {
        assert_eq!(
            server_name_from_server_id_expr("upcloud_server.myserver[count.index].id"),
            "myserver"
        );
    }

    #[test]
    fn output_known_type_and_attr_rewritten() {
        let hcl = "output \"ip\" {\n  value = aws_instance.web.public_ip\n}";
        let rewritten = rewrite_output_refs(hcl);
        assert!(
            rewritten.contains("upcloud_server.web.network_interface[0].ip_address"),
            "public_ip should map to network_interface[0].ip_address\n{rewritten}"
        );
        assert!(
            !rewritten.contains("aws_instance"),
            "no AWS ref should remain\n{rewritten}"
        );
    }

    #[test]
    fn output_known_type_unknown_attr_gets_todo() {
        let hcl = "output \"arn\" {\n  value = aws_instance.web.arn\n}";
        let rewritten = rewrite_output_refs(hcl);
        assert!(
            rewritten.contains("\"<TODO: was upcloud_server.web.arn"),
            "unknown attr should get a quoted-string TODO\n{rewritten}"
        );
    }

    #[test]
    fn output_unknown_type_gets_full_todo() {
        let hcl = "output \"x\" {\n  value = aws_cloudfront_distribution.cdn.domain_name\n}";
        let rewritten = rewrite_output_refs(hcl);
        assert!(
            rewritten.contains("<TODO: was aws_cloudfront_distribution.cdn.domain_name"),
            "unknown AWS type should get full TODO replacement\n{rewritten}"
        );
    }

    #[test]
    fn output_db_endpoint_rewritten() {
        let hcl = "output \"db_host\" {\n  value = aws_db_instance.main.endpoint\n}";
        let rewritten = rewrite_output_refs(hcl);
        assert!(
            rewritten.contains("upcloud_managed_database_postgresql.main.service_host"),
            "db endpoint should map to service_host\n{rewritten}"
        );
    }

    #[test]
    fn output_lb_dns_name_rewritten() {
        let hcl = "output \"lb\" {\n  value = aws_lb.main.dns_name\n}";
        let rewritten = rewrite_output_refs(hcl);
        assert!(
            rewritten.contains("[for n in upcloud_loadbalancer.main.networks : n.dns_name if n.type == \"public\"][0]"),
            "lb dns_name should use for-expression over public network\n{rewritten}"
        );
    }

    #[test]
    fn output_id_passthrough_rewritten() {
        // .id is the same in both providers — just the type prefix changes
        let hcl = "output \"net_id\" {\n  value = aws_subnet.public.id\n}";
        let rewritten = rewrite_output_refs(hcl);
        assert!(
            rewritten.contains("upcloud_network.public.id"),
            ".id should rewrite type but keep .id\n{rewritten}"
        );
    }

    #[test]
    fn output_ref_inside_existing_todo_not_double_rewritten() {
        // refs already inside <TODO:> markers must not be rewritten again
        let hcl = "output \"x\" {\n  value = \"<TODO: was aws_instance.web.arn>\"\n}";
        let rewritten = rewrite_output_refs(hcl);
        // Should be unchanged — the aws_instance ref is inside a TODO marker
        assert_eq!(
            rewritten, hcl,
            "refs inside TODO markers must not be rewritten"
        );
    }

    #[test]
    fn rewrite_output_refs_appends_router_suffix_for_vpc() {
        let input = r#"output "vpc_id" {
  value = aws_vpc.main.id
}"#;
        let result = rewrite_output_refs(input);
        assert!(
            result.contains("upcloud_router.main_router.id"),
            "aws_vpc.main.id must map to upcloud_router.main_router.id\n{result}"
        );
        assert!(
            !result.contains("upcloud_router.main.id"),
            "must not use bare 'main'\n{result}"
        );
    }

    #[test]
    fn passthrough_excluded_from_pricing() {
        // Passthrough resources should not be counted for UpCloud pricing
        let k8s_hcl = r#"resource "kubernetes_deployment_v1" "nginx" {
  spec { replicas = 2 }
}
"#;
        let passthrough = MigrationResult {
            resource_type: "kubernetes_deployment_v1".to_string(),
            resource_name: "nginx".to_string(),
            source_file: "test.tf".to_string(),
            status: MigrationStatus::Passthrough,
            upcloud_type: "kubernetes_deployment_v1".to_string(),
            upcloud_hcl: Some(k8s_hcl.to_string()),
            snippet: None,
            parent_resource: None,
            notes: vec!["Non-cloud-provider resource, kept as is.".to_string()],
            source_hcl: Some(k8s_hcl.to_string()),
        };
        assert_eq!(
            passthrough.status,
            MigrationStatus::Passthrough,
            "passthrough status must be Passthrough"
        );
        assert!(
            matches!(
                passthrough.status,
                MigrationStatus::Unsupported
                    | MigrationStatus::Unknown
                    | MigrationStatus::Passthrough
            ),
            "passthrough should be filtered out of pricing calculations"
        );
    }

    #[test]
    fn map_resource_produces_passthrough_for_non_cloud_resources() {

        let res = upcloud_migrate::terraform::types::TerraformResource {
            resource_type: "kubernetes_deployment_v1".to_string(),
            name: "nginx".to_string(),
            attributes: Vec::new(),
            source_file: String::from("test.tf"),
            raw_hcl: "resource \"kubernetes_deployment_v1\" \"nginx\" {\n  metadata {\n    name = \"nginx\"\n  }\n}".to_string(),
        };

        let result = map_resource(&res);

        assert_eq!(result.status, MigrationStatus::Passthrough);
        assert!(
            result.upcloud_hcl.is_some(),
            "passthrough resource must have upcloud_hcl set"
        );
        assert_eq!(
            result.upcloud_hcl.as_deref().unwrap(),
            res.raw_hcl,
            "passthrough resource must preserve raw HCL"
        );
        assert_eq!(result.upcloud_type, "kubernetes_deployment_v1");
    }

    #[test]
    fn map_resource_various_non_cloud_types_produce_passthrough() {

        let non_cloud_types = [
            "kubernetes_deployment_v1",
            "helm_release",
            "null_resource",
            "random_password",
            "local_file",
            "tls_private_key",
        ];

        for rt in &non_cloud_types {
            let res = upcloud_migrate::terraform::types::TerraformResource {
                resource_type: rt.to_string(),
                name: "test".to_string(),
                attributes: Vec::new(),
                source_file: String::from("test.tf"),
                raw_hcl: format!("resource \"{}\" \"test\" {{\n}}", rt),
            };
            let result = map_resource(&res);
            assert_eq!(
                result.status,
                MigrationStatus::Passthrough,
                "resource type '{}' should produce Passthrough status",
                rt
            );
            assert!(
                result.upcloud_hcl.is_some(),
                "resource type '{}' should have upcloud_hcl set",
                rt
            );
        }
    }
