use upcloud_migrate::migration::providers::aws::kubernetes::map_eks_cluster;
use upcloud_migrate::migration::providers::aws::kubernetes::map_eks_node_group;
use upcloud_migrate::terraform::types::TerraformResource;

    fn make_res(resource_type: &str, name: &str, attrs: &[(&str, &str)]) -> TerraformResource {
        TerraformResource {
            resource_type: resource_type.to_string(),
            name: name.to_string(),
            attributes: attrs
                .iter()
                .map(|(k, v)| (k.to_string(), v.to_string()))
                .collect(),
            source_file: String::from("test.tf"),
            raw_hcl: String::new(),
        }
    }

    #[test]
    fn eks_cluster_generates_kubernetes_cluster() {
        let res = make_res("aws_eks_cluster", "prod", &[("version", "1.29")]);
        let r = map_eks_cluster(&res);
        assert_eq!(r.upcloud_type, "upcloud_kubernetes_cluster");
        let hcl = r.upcloud_hcl.unwrap();
        assert!(
            hcl.contains("resource \"upcloud_kubernetes_cluster\" \"prod\""),
            "{hcl}"
        );
        assert!(hcl.contains("version                 = \"1.29\""), "{hcl}");
        assert!(hcl.contains("control_plane_ip_filter"), "{hcl}");
    }

    #[test]
    fn eks_cluster_variable_name_emitted_unquoted() {
        let res = make_res("aws_eks_cluster", "main", &[("name", "var.cluster_name")]);
        let hcl = map_eks_cluster(&res).upcloud_hcl.unwrap();
        assert!(
            hcl.contains("name                    = var.cluster_name"),
            "variable name attr must be unquoted\n{hcl}"
        );
        assert!(
            !hcl.contains("\"var.cluster_name\""),
            "variable name attr must not be double-quoted\n{hcl}"
        );
    }

    #[test]
    fn eks_cluster_variable_version_emitted_unquoted() {
        let res = make_res(
            "aws_eks_cluster",
            "c",
            &[("version", "var.kubernetes_version")],
        );
        let hcl = map_eks_cluster(&res).upcloud_hcl.unwrap();
        assert!(
            hcl.contains("version                 = var.kubernetes_version"),
            "variable ref must be unquoted\n{hcl}"
        );
        assert!(
            !hcl.contains("\"var.kubernetes_version\""),
            "variable ref must not be double-quoted\n{hcl}"
        );
    }

    #[test]
    fn eks_cluster_defaults_version_when_absent() {
        let res = make_res("aws_eks_cluster", "c", &[]);
        let hcl = map_eks_cluster(&res).upcloud_hcl.unwrap();
        assert!(hcl.contains("version                 = \""), "{hcl}");
    }

    #[test]
    fn eks_cluster_has_network_ref_todo() {
        let res = make_res("aws_eks_cluster", "c", &[]);
        let hcl = map_eks_cluster(&res).upcloud_hcl.unwrap();
        assert!(
            hcl.contains("<TODO: upcloud_network reference>"),
            "cluster must have network TODO before generator cross-resolve\n{hcl}"
        );
    }

    #[test]
    fn eks_cluster_has_control_plane_ip_filter() {
        let res = make_res("aws_eks_cluster", "c", &[]);
        let hcl = map_eks_cluster(&res).upcloud_hcl.unwrap();
        assert!(hcl.contains("control_plane_ip_filter"), "{hcl}");
    }

    #[test]
    fn eks_cluster_notes_lifecycle_ignore_changes() {
        let res = make_res("aws_eks_cluster", "c", &[]);
        let r = map_eks_cluster(&res);
        assert!(
            r.notes.iter().any(|n| n.contains("ignore_changes")),
            "should note the lifecycle block on the network\n{:?}",
            r.notes
        );
    }

    #[test]
    fn eks_cluster_has_commented_private_node_groups() {
        // private_node_groups cannot be auto-detected from EKS vpc_config fields;
        // it depends on whether _node-group_ subnets are private-only (NAT-only outbound).
        // The generated HCL always includes it as a comment for the user to opt in.
        let res = make_res("aws_eks_cluster", "c", &[]);
        let hcl = map_eks_cluster(&res).upcloud_hcl.unwrap();
        assert!(
            hcl.contains("# private_node_groups = true"),
            "HCL must include a commented-out private_node_groups line\n{hcl}"
        );
        assert!(
            !hcl.contains("\n  private_node_groups     = true"),
            "private_node_groups must not be uncommented automatically\n{hcl}"
        );
    }

    #[test]
    fn eks_cluster_private_node_groups_note_mentions_nat() {
        let res = make_res("aws_eks_cluster", "c", &[]);
        let r = map_eks_cluster(&res);
        assert!(
            r.notes.iter().any(|n| n.contains("private_node_groups")),
            "should include a note explaining when to enable private_node_groups\n{:?}",
            r.notes
        );
    }

    #[test]
    fn eks_cluster_has_commented_plan() {
        let res = make_res("aws_eks_cluster", "c", &[]);
        let hcl = map_eks_cluster(&res).upcloud_hcl.unwrap();
        assert!(
            hcl.contains("# plan ="),
            "HCL must include a commented-out plan line\n{hcl}"
        );
    }

    #[test]
    fn eks_node_group_generates_kubernetes_node_group() {
        let res = make_res(
            "aws_eks_node_group",
            "workers",
            &[
                ("scaling_config.desired_size", "3"),
                ("scaling_config.min_size", "1"),
                ("scaling_config.max_size", "5"),
            ],
        );
        let r = map_eks_node_group(&res);
        assert_eq!(r.upcloud_type, "upcloud_kubernetes_node_group");
        let hcl = r.upcloud_hcl.unwrap();
        assert!(
            hcl.contains("resource \"upcloud_kubernetes_node_group\" \"workers\""),
            "{hcl}"
        );
        assert!(hcl.contains("node_count = 3"), "{hcl}");
    }

    #[test]
    fn eks_node_group_variable_name_emitted_unquoted() {
        let res = make_res(
            "aws_eks_node_group",
            "main",
            &[("node_group_name", "${var.cluster_name}-node-group")],
        );
        let hcl = map_eks_node_group(&res).upcloud_hcl.unwrap();
        assert!(
            hcl.contains("name       = \"${var.cluster_name}-node-group\""),
            "template string should be quoted\n{hcl}"
        );
    }

    #[test]
    fn eks_node_group_has_cluster_cross_ref_todo() {
        let res = make_res("aws_eks_node_group", "ng", &[]);
        let hcl = map_eks_node_group(&res).upcloud_hcl.unwrap();
        assert!(
            hcl.contains("upcloud_kubernetes_cluster.<TODO>.id"),
            "node group must reference cluster via TODO before generator cross-resolve\n{hcl}"
        );
    }

    #[test]
    fn eks_node_group_defaults_desired_size_to_2() {
        let res = make_res("aws_eks_node_group", "ng", &[]);
        let hcl = map_eks_node_group(&res).upcloud_hcl.unwrap();
        assert!(hcl.contains("node_count = 2"), "{hcl}");
    }

    #[test]
    fn eks_node_group_maps_instance_type_to_plan() {
        let res = make_res(
            "aws_eks_node_group",
            "ng",
            &[("instance_types", "[\"t3.large\"]")],
        );
        let hcl = map_eks_node_group(&res).upcloud_hcl.unwrap();
        assert!(hcl.contains("2xCPU-8GB"), "{hcl}");
    }

    #[test]
    fn eks_node_group_unknown_type_falls_back_to_default_plan() {
        let res = make_res(
            "aws_eks_node_group",
            "ng",
            &[("instance_types", "[\"x9.unknown\"]")],
        );
        let hcl = map_eks_node_group(&res).upcloud_hcl.unwrap();
        assert!(hcl.contains("2xCPU-4GB"), "{hcl}");
    }

    #[test]
    fn eks_node_group_multiline_instance_types_produces_valid_hcl() {
        let res = make_res(
            "aws_eks_node_group",
            "ng",
            &[("instance_types", "[\n  var.eks_instance_type\n]")],
        );
        let hcl = map_eks_node_group(&res).upcloud_hcl.unwrap();

        for line in hcl.lines() {
            assert!(
                !line.trim().eq("]"),
                "stray `]` on its own line — comment was broken:\n{hcl}"
            );
        }

        let r = map_eks_node_group(&res);
        for note in &r.notes {
            assert!(
                !note.contains('\n'),
                "note contains newline — would break `# NOTE:` comment:\n{note:?}"
            );
        }
    }

    #[test]
    fn eks_node_group_variable_instance_type_adds_note() {
        let res = make_res(
            "aws_eks_node_group",
            "ng",
            &[("instance_types", "[var.instance_type]")],
        );
        let r = map_eks_node_group(&res);
        assert!(
            r.notes.iter().any(|n| n.contains("variable reference")),
            "{:?}",
            r.notes
        );
    }
