use upcloud_migrate::migration::providers::azure::kubernetes::map_kubernetes_cluster;
use upcloud_migrate::migration::providers::azure::kubernetes::map_kubernetes_cluster_node_pool;
use upcloud_migrate::terraform::types::TerraformResource;

    fn make_res(resource_type: &str, name: &str, attrs: &[(&str, &str)]) -> TerraformResource {
        TerraformResource {
            resource_type: resource_type.to_string(),
            name: name.to_string(),
            attributes: attrs
                .iter()
                .map(|(k, v)| (k.to_string(), v.to_string()))
                .collect(),
            source_file: String::from("test.tf"),
            raw_hcl: String::new(),
        }
    }

    #[test]
    fn aks_cluster_generates_upcloud_kubernetes_cluster() {
        let res = make_res(
            "azurerm_kubernetes_cluster",
            "prod",
            &[("kubernetes_version", "1.30")],
        );
        let r = map_kubernetes_cluster(&res);
        assert_eq!(r.upcloud_type, "upcloud_kubernetes_cluster");
        let hcl = r.upcloud_hcl.unwrap();
        assert!(
            hcl.contains("resource \"upcloud_kubernetes_cluster\" \"prod\""),
            "{hcl}"
        );
        assert!(hcl.contains("version                 = \"1.30\""), "{hcl}");
    }

    #[test]
    fn aks_cluster_has_network_todo() {
        let res = make_res("azurerm_kubernetes_cluster", "c", &[]);
        let hcl = map_kubernetes_cluster(&res).upcloud_hcl.unwrap();
        assert!(hcl.contains("<TODO: upcloud_network reference>"), "{hcl}");
    }

    #[test]
    fn aks_cluster_has_control_plane_ip_filter() {
        let res = make_res("azurerm_kubernetes_cluster", "c", &[]);
        let hcl = map_kubernetes_cluster(&res).upcloud_hcl.unwrap();
        assert!(hcl.contains("control_plane_ip_filter"), "{hcl}");
    }

    #[test]
    fn aks_cluster_defaults_version_when_absent() {
        let res = make_res("azurerm_kubernetes_cluster", "c", &[]);
        let hcl = map_kubernetes_cluster(&res).upcloud_hcl.unwrap();
        assert!(hcl.contains("version                 = \"1.31\""), "{hcl}");
    }

    #[test]
    fn aks_cluster_variable_version_emitted_unquoted() {
        let res = make_res(
            "azurerm_kubernetes_cluster",
            "c",
            &[("kubernetes_version", "var.k8s_version")],
        );
        let hcl = map_kubernetes_cluster(&res).upcloud_hcl.unwrap();
        assert!(
            hcl.contains("version                 = var.k8s_version"),
            "{hcl}"
        );
        assert!(!hcl.contains("\"var.k8s_version\""), "{hcl}");
    }

    #[test]
    fn aks_cluster_has_commented_private_node_groups() {
        let res = make_res("azurerm_kubernetes_cluster", "c", &[]);
        let hcl = map_kubernetes_cluster(&res).upcloud_hcl.unwrap();
        assert!(hcl.contains("# private_node_groups = true"), "{hcl}");
        assert!(!hcl.contains("\n  private_node_groups     = true"), "{hcl}");
    }

    #[test]
    fn node_pool_generates_upcloud_node_group() {
        let res = make_res(
            "azurerm_kubernetes_cluster_node_pool",
            "workers",
            &[("vm_size", "Standard_D4s_v3"), ("node_count", "3")],
        );
        let r = map_kubernetes_cluster_node_pool(&res);
        assert_eq!(r.upcloud_type, "upcloud_kubernetes_node_group");
        let hcl = r.upcloud_hcl.unwrap();
        assert!(
            hcl.contains("resource \"upcloud_kubernetes_node_group\" \"workers\""),
            "{hcl}"
        );
        assert!(hcl.contains("plan       = \"4xCPU-8GB\""), "{hcl}");
        assert!(hcl.contains("node_count = 3"), "{hcl}");
    }

    #[test]
    fn node_pool_with_cluster_id_ref_links_cluster() {
        let res = make_res(
            "azurerm_kubernetes_cluster_node_pool",
            "np",
            &[
                ("vm_size", "Standard_D2s_v3"),
                (
                    "kubernetes_cluster_id",
                    "azurerm_kubernetes_cluster.prod.id",
                ),
            ],
        );
        let hcl = map_kubernetes_cluster_node_pool(&res).upcloud_hcl.unwrap();
        assert!(hcl.contains("upcloud_kubernetes_cluster.prod.id"), "{hcl}");
    }

    #[test]
    fn node_pool_without_cluster_ref_has_todo() {
        let res = make_res("azurerm_kubernetes_cluster_node_pool", "np", &[]);
        let hcl = map_kubernetes_cluster_node_pool(&res).upcloud_hcl.unwrap();
        assert!(
            hcl.contains("upcloud_kubernetes_cluster.<TODO>.id"),
            "{hcl}"
        );
    }

    #[test]
    fn node_pool_unknown_vm_size_falls_back_to_default_plan() {
        let res = make_res(
            "azurerm_kubernetes_cluster_node_pool",
            "np",
            &[("vm_size", "Standard_UNKNOWN_X9")],
        );
        let hcl = map_kubernetes_cluster_node_pool(&res).upcloud_hcl.unwrap();
        assert!(hcl.contains("2xCPU-4GB"), "{hcl}");
    }
