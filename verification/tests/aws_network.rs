use upcloud_migrate::migration::providers::aws::network::map_eip;
use upcloud_migrate::migration::providers::aws::network::map_eip_association;
use upcloud_migrate::migration::providers::aws::network::map_internet_gateway;
use upcloud_migrate::migration::providers::aws::network::map_network_interface;
use upcloud_migrate::migration::providers::aws::network::map_route_table;
use upcloud_migrate::migration::providers::aws::network::map_security_group;
use upcloud_migrate::migration::providers::aws::network::map_sg_egress_rule;
use upcloud_migrate::migration::providers::aws::network::map_sg_ingress_rule;
use upcloud_migrate::migration::providers::aws::network::map_subnet;
use upcloud_migrate::migration::providers::aws::network::map_vpc;
use upcloud_migrate::terraform::types::TerraformResource;

    fn make_res(resource_type: &str, name: &str, attrs: &[(&str, &str)]) -> TerraformResource {
        TerraformResource {
            resource_type: resource_type.to_string(),
            name: name.to_string(),
            attributes: attrs
                .iter()
                .map(|(k, v)| (k.to_string(), v.to_string()))
                .collect(),
            source_file: String::from("test.tf"),
            raw_hcl: String::new(),
        }
    }

    #[test]
    fn vpc_generates_router_only() {
        let res = make_res("aws_vpc", "main", &[("cidr_block", "10.0.0.0/16")]);
        let r = map_vpc(&res);
        assert_eq!(r.upcloud_type, "upcloud_router");
        let hcl = r.upcloud_hcl.unwrap();
        assert!(
            hcl.contains("resource \"upcloud_router\" \"main_router\""),
            "{hcl}"
        );
        // must NOT generate an upcloud_network block (only 1 ip_network allowed per network)
        assert!(
            !hcl.contains("upcloud_network"),
            "VPC must not produce an upcloud_network\n{hcl}"
        );
        assert!(!hcl.contains("ip_network"), "{hcl}");
    }

    #[test]
    fn vpc_status_is_compatible() {
        let res = make_res("aws_vpc", "main", &[]);
        assert_eq!(
            map_vpc(&res).status,
            upcloud_migrate::migration::types::MigrationStatus::Compatible
        );
    }

    #[test]
    fn subnet_generates_standalone_upcloud_network() {
        let res = make_res(
            "aws_subnet",
            "pub",
            &[("cidr_block", "10.0.1.0/24"), ("vpc_id", "aws_vpc.main.id")],
        );
        let r = map_subnet(&res);
        assert_eq!(r.upcloud_type, "upcloud_network");
        let hcl = r.upcloud_hcl.unwrap();
        assert!(
            hcl.contains("resource \"upcloud_network\" \"pub\""),
            "{hcl}"
        );
        assert!(
            hcl.contains("address            = \"10.0.1.0/24\""),
            "{hcl}"
        );
        // snippet must be None (no injection into parent)
        assert!(
            r.snippet.is_none(),
            "subnets are no longer injected as snippets"
        );
    }

    #[test]
    fn subnet_references_parent_router() {
        let res = make_res(
            "aws_subnet",
            "priv",
            &[("cidr_block", "10.0.2.0/24"), ("vpc_id", "aws_vpc.main.id")],
        );
        let hcl = map_subnet(&res).upcloud_hcl.unwrap();
        assert!(hcl.contains("upcloud_router.main_router.id"), "{hcl}");
    }

    #[test]
    fn subnet_without_vpc_id_has_router_todo() {
        let res = make_res("aws_subnet", "orphan", &[("cidr_block", "10.0.3.0/24")]);
        let hcl = map_subnet(&res).upcloud_hcl.unwrap();
        assert!(hcl.contains("<TODO: router id>"), "{hcl}");
    }

    #[test]
    fn subnet_with_count_generates_count_line() {
        let res = make_res(
            "aws_subnet",
            "public",
            &[
                ("cidr_block", "10.0.${count.index + 1}.0/24"),
                ("vpc_id", "aws_vpc.main.id"),
                ("count", "2"),
            ],
        );
        let hcl = map_subnet(&res).upcloud_hcl.unwrap();
        assert!(
            hcl.contains("count = 2"),
            "count should be propagated\n{hcl}"
        );
    }

    #[test]
    fn subnet_with_count_uses_index_in_name() {
        let res = make_res(
            "aws_subnet",
            "public",
            &[
                ("cidr_block", "10.0.0.0/24"),
                ("vpc_id", "aws_vpc.main.id"),
                ("count", "3"),
            ],
        );
        let hcl = map_subnet(&res).upcloud_hcl.unwrap();
        assert!(
            hcl.contains("${count.index + 1}"),
            "name should use count.index\n{hcl}"
        );
        assert!(
            !hcl.contains("name = \"public\"\n"),
            "bare name should not appear when count is set\n{hcl}"
        );
    }

    #[test]
    fn network_subnet_has_exactly_one_ip_network_block() {
        let res = make_res(
            "aws_subnet",
            "s",
            &[("cidr_block", "10.0.4.0/24"), ("vpc_id", "aws_vpc.main.id")],
        );
        let hcl = map_subnet(&res).upcloud_hcl.unwrap();
        let count = hcl.matches("ip_network").count();
        assert_eq!(count, 1, "must have exactly 1 ip_network block\n{hcl}");
    }

    #[test]
    fn subnet_has_lifecycle_ignore_changes_router() {
        let res = make_res(
            "aws_subnet",
            "s",
            &[("cidr_block", "10.0.4.0/24"), ("vpc_id", "aws_vpc.main.id")],
        );
        let hcl = map_subnet(&res).upcloud_hcl.unwrap();
        assert!(
            hcl.contains("lifecycle"),
            "upcloud_network must include a lifecycle block\n{hcl}"
        );
        assert!(
            hcl.contains("ignore_changes = [router]"),
            "lifecycle block must ignore router changes\n{hcl}"
        );
    }

    #[test]
    fn subnet_note_mentions_lifecycle_ignore_changes() {
        let res = make_res("aws_subnet", "s", &[("cidr_block", "10.0.4.0/24")]);
        let r = map_subnet(&res);
        assert!(
            r.notes.iter().any(|n| n.contains("ignore_changes")),
            "note should mention lifecycle ignore_changes\n{:?}",
            r.notes
        );
    }

    #[test]
    fn security_group_generates_firewall_rules() {
        let raw = r#"resource "aws_security_group" "web" {
  ingress {
    from_port   = 80
    to_port     = 80
    protocol    = "tcp"
    cidr_blocks = ["0.0.0.0/0"]
    description = "HTTP"
  }
  egress {
    from_port   = 0
    to_port     = 0
    protocol    = "-1"
    cidr_blocks = ["0.0.0.0/0"]
  }
}"#;
        let mut res = make_res("aws_security_group", "web", &[]);
        res.raw_hcl = raw.to_string();
        let r = map_security_group(&res);
        assert_eq!(r.upcloud_type, "upcloud_firewall_rules");
        let hcl = r.upcloud_hcl.unwrap();
        assert!(
            hcl.contains("resource \"upcloud_firewall_rules\" \"web\""),
            "{hcl}"
        );
        assert!(
            hcl.contains("upcloud_server.<TODO>.id"),
            "server_id needs TODO before cross-resolve\n{hcl}"
        );
        assert!(hcl.contains("direction = \"in\""), "{hcl}");
        assert!(hcl.contains("direction = \"out\""), "{hcl}");
        assert!(hcl.contains("destination_port_start = \"80\""), "{hcl}");
        assert!(
            hcl.contains("destination_port_end   = \"80\""),
            "end must equal start for single-port rules\n{hcl}"
        );
    }

    #[test]
    fn security_group_without_rules_has_catchall_outbound() {
        let res = make_res("aws_security_group", "empty", &[]);
        let hcl = map_security_group(&res).upcloud_hcl.unwrap();
        // catch-all outbound must always be present
        assert!(hcl.contains("direction = \"out\""), "{hcl}");
        assert!(hcl.contains("action    = \"accept\""), "{hcl}");
    }

    #[test]
    fn internet_gateway_is_partial_no_hcl() {
        let res = make_res("aws_internet_gateway", "igw", &[]);
        let r = map_internet_gateway(&res);
        assert_eq!(r.status, upcloud_migrate::migration::types::MigrationStatus::Partial);
        assert!(
            r.upcloud_hcl.is_none(),
            "IGW has no standalone UpCloud resource"
        );
    }

    #[test]
    fn route_table_with_no_raw_hcl_is_automatic() {
        // When raw_hcl is empty (no custom routes detected), UpCloud handles routing
        let res = make_res("aws_route_table", "rt", &[]);
        let r = map_route_table(&res);
        // No snippet — UpCloud Router handles default routes automatically
        assert!(
            r.snippet.is_none(),
            "default-only route table should not generate snippet"
        );
        assert!(
            r.notes.iter().any(|n| n.contains("automatically")),
            "should note automatic routing\n{:?}",
            r.notes
        );
    }

    #[test]
    fn route_table_with_default_only_route_is_automatic() {
        let mut res = make_res("aws_route_table", "public", &[]);
        res.raw_hcl = r#"resource "aws_route_table" "public" {
  route {
    cidr_block = "0.0.0.0/0"
    gateway_id = aws_internet_gateway.main.id
  }
}"#
        .to_string();
        let r = map_route_table(&res);
        assert!(
            r.snippet.is_none(),
            "default-only route table should not generate snippet\n{:?}",
            r.notes
        );
    }

    #[test]
    fn route_table_with_custom_route_produces_snippet() {
        let mut res = make_res("aws_route_table", "vpn", &[]);
        res.raw_hcl = r#"resource "aws_route_table" "vpn" {
  route {
    cidr_block = "10.100.0.0/16"
    gateway_id = aws_vpn_gateway.main.id
  }
}"#
        .to_string();
        let r = map_route_table(&res);
        let snippet = r.snippet.unwrap();
        assert!(snippet.contains("static_route"), "{snippet}");
        assert!(snippet.contains("\"vpn\""), "{snippet}");
    }

    #[test]
    fn eip_without_instance_generates_detached_floating_ip() {
        let res = make_res("aws_eip", "my_ip", &[]);
        let r = map_eip(&res);
        assert_eq!(r.upcloud_type, "upcloud_floating_ip_address");
        let hcl = r.upcloud_hcl.unwrap();
        assert!(
            hcl.contains("resource \"upcloud_floating_ip_address\" \"my_ip\""),
            "{hcl}"
        );
        assert!(hcl.contains("zone = \"__ZONE__\""), "{hcl}");
        // Comment mentions mac_address as guidance — but it must not be set as an attribute
        assert!(
            !hcl.lines()
                .any(|l| !l.trim().starts_with('#') && l.contains("mac_address")),
            "detached EIP should not have mac_address attribute\n{hcl}"
        );
    }

    #[test]
    fn eip_with_instance_generates_attached_floating_ip() {
        let res = make_res(
            "aws_eip",
            "bastion",
            &[("instance", "aws_instance.bastion.id")],
        );
        let r = map_eip(&res);
        let hcl = r.upcloud_hcl.unwrap();
        assert!(
            hcl.contains("mac_address = upcloud_server.bastion.network_interface[0].mac_address"),
            "{hcl}"
        );
        assert!(
            !hcl.contains("zone"),
            "attached EIP does not need zone attr\n{hcl}"
        );
    }

    #[test]
    fn eip_association_generates_mac_address_snippet() {
        let res = make_res(
            "aws_eip_association",
            "assoc",
            &[
                ("allocation_id", "aws_eip.my_ip.id"),
                ("instance_id", "aws_instance.web.id"),
            ],
        );
        let r = map_eip_association(&res);
        assert_eq!(r.upcloud_type, "mac_address on upcloud_floating_ip_address");
        assert!(r.upcloud_hcl.is_none(), "no standalone HCL resource");
        let snippet = r.snippet.unwrap();
        assert!(snippet.contains("mac_address"), "{snippet}");
        assert!(
            snippet.contains("my_ip"),
            "should reference the EIP resource name\n{snippet}"
        );
        assert!(snippet.contains("upcloud_server.web"), "{snippet}");
    }

    #[test]
    fn eip_association_without_refs_has_todo_snippet() {
        let res = make_res("aws_eip_association", "a", &[]);
        let snippet = map_eip_association(&res).snippet.unwrap();
        assert!(snippet.contains("<TODO>"), "{snippet}");
        assert!(snippet.contains("mac_address"), "{snippet}");
    }

    #[test]
    fn network_interface_with_subnet_ref_generates_snippet() {
        let res = make_res(
            "aws_network_interface",
            "eni",
            &[("subnet_id", "aws_subnet.private.id")],
        );
        let r = map_network_interface(&res);
        assert_eq!(r.upcloud_type, "network_interface block in upcloud_server");
        assert!(r.upcloud_hcl.is_none(), "no standalone HCL resource");
        let snippet = r.snippet.unwrap();
        assert!(snippet.contains("network_interface"), "{snippet}");
        assert!(snippet.contains("upcloud_network.private.id"), "{snippet}");
        assert!(snippet.contains("type    = \"private\""), "{snippet}");
    }

    #[test]
    fn network_interface_without_subnet_has_todo() {
        let res = make_res("aws_network_interface", "eni", &[]);
        let snippet = map_network_interface(&res).snippet.unwrap();
        assert!(
            snippet.contains("<TODO: upcloud_network UUID>"),
            "{snippet}"
        );
    }

    #[test]
    fn network_interface_with_private_ip_includes_ip_address() {
        let res = make_res(
            "aws_network_interface",
            "eni",
            &[
                ("subnet_id", "aws_subnet.db.id"),
                ("private_ips", "[\"10.0.2.5\"]"),
            ],
        );
        let snippet = map_network_interface(&res).snippet.unwrap();
        assert!(snippet.contains("ip_address = \"10.0.2.5\""), "{snippet}");
    }

    #[test]
    fn sg_ingress_rule_generates_firewall_rule_snippet() {
        let res = make_res(
            "aws_vpc_security_group_ingress_rule",
            "allow_https",
            &[
                ("security_group_id", "aws_security_group.web.id"),
                ("from_port", "443"),
                ("to_port", "443"),
                ("ip_protocol", "tcp"),
            ],
        );
        let r = map_sg_ingress_rule(&res);
        assert_eq!(
            r.upcloud_type,
            "firewall_rule block in upcloud_firewall_rules"
        );
        assert!(r.upcloud_hcl.is_none());
        let snippet = r.snippet.unwrap();
        assert!(snippet.contains("direction = \"in\""), "{snippet}");
        assert!(
            snippet.contains("destination_port_start = \"443\""),
            "{snippet}"
        );
        assert!(
            snippet.contains("destination_port_end   = \"443\""),
            "{snippet}"
        );
        assert!(snippet.contains("\"web\""), "{snippet}");
    }

    #[test]
    fn sg_egress_rule_generates_outbound_snippet() {
        let res = make_res(
            "aws_vpc_security_group_egress_rule",
            "allow_all_out",
            &[
                ("security_group_id", "aws_security_group.web.id"),
                ("ip_protocol", "-1"),
            ],
        );
        let snippet = map_sg_egress_rule(&res).snippet.unwrap();
        assert!(snippet.contains("direction = \"out\""), "{snippet}");
        // all-traffic: no port lines expected
        assert!(!snippet.contains("destination_port"), "{snippet}");
    }

    #[test]
    fn sg_standalone_rule_without_sg_ref_has_todo_target() {
        let res = make_res("aws_vpc_security_group_ingress_rule", "r", &[]);
        let snippet = map_sg_ingress_rule(&res).snippet.unwrap();
        assert!(snippet.contains("<TODO: sg_name>"), "{snippet}");
    }

    #[test]
    fn sg_standalone_rule_parent_resource_is_sg_name() {
        let res = make_res(
            "aws_vpc_security_group_ingress_rule",
            "r",
            &[("security_group_id", "aws_security_group.app.id")],
        );
        let r = map_sg_ingress_rule(&res);
        assert_eq!(r.parent_resource, Some("app".into()));
    }
