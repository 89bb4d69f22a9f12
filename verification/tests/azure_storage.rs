use upcloud_migrate::migration::providers::azure::storage::map_data_disk_attachment;
use upcloud_migrate::migration::providers::azure::storage::map_managed_disk;
use upcloud_migrate::migration::providers::azure::storage::map_storage_account;
use upcloud_migrate::migration::providers::azure::storage::map_storage_container;
use upcloud_migrate::migration::providers::azure::storage::map_storage_share;
use upcloud_migrate::terraform::types::TerraformResource;

    fn make_res(resource_type: &str, name: &str, attrs: &[(&str, &str)]) -> TerraformResource {
        TerraformResource {
            resource_type: resource_type.to_string(),
            name: name.to_string(),
            attributes: attrs
                .iter()
                .map(|(k, v)| (k.to_string(), v.to_string()))
                .collect(),
            source_file: String::from("test.tf"),
            raw_hcl: String::new(),
        }
    }

    #[test]
    fn premium_lrs_maps_to_maxiops() {
        let res = make_res(
            "azurerm_managed_disk",
            "data",
            &[
                ("storage_account_type", "Premium_LRS"),
                ("disk_size_gb", "100"),
            ],
        );
        let r = map_managed_disk(&res);
        assert_eq!(r.upcloud_type, "upcloud_storage");
        let hcl = r.upcloud_hcl.unwrap();
        assert!(
            hcl.contains("resource \"upcloud_storage\" \"data\""),
            "{hcl}"
        );
        assert!(hcl.contains("tier  = \"maxiops\""), "{hcl}");
    }

    #[test]
    fn standard_lrs_maps_to_hdd() {
        let res = make_res(
            "azurerm_managed_disk",
            "archive",
            &[
                ("storage_account_type", "Standard_LRS"),
                ("disk_size_gb", "500"),
            ],
        );
        let hcl = map_managed_disk(&res).upcloud_hcl.unwrap();
        assert!(hcl.contains("tier  = \"hdd\""), "{hcl}");
    }

    #[test]
    fn premium_zrs_maps_to_maxiops() {
        let res = make_res(
            "azurerm_managed_disk",
            "v",
            &[
                ("storage_account_type", "Premium_ZRS"),
                ("disk_size_gb", "50"),
            ],
        );
        assert!(
            map_managed_disk(&res)
                .upcloud_hcl
                .unwrap()
                .contains("maxiops")
        );
    }

    #[test]
    fn managed_disk_size_propagated() {
        let res = make_res(
            "azurerm_managed_disk",
            "big",
            &[
                ("storage_account_type", "Premium_LRS"),
                ("disk_size_gb", "200"),
            ],
        );
        let hcl = map_managed_disk(&res).upcloud_hcl.unwrap();
        assert!(hcl.contains("size  = 200"), "{hcl}");
    }

    #[test]
    fn managed_disk_defaults_to_20gb_maxiops_when_no_attrs() {
        let res = make_res("azurerm_managed_disk", "v", &[]);
        let hcl = map_managed_disk(&res).upcloud_hcl.unwrap();
        assert!(hcl.contains("size  = 20"), "{hcl}");
        assert!(hcl.contains("maxiops"), "{hcl}");
    }

    #[test]
    fn disk_attachment_generates_storage_devices_snippet() {
        let res = make_res(
            "azurerm_virtual_machine_data_disk_attachment",
            "attach",
            &[
                ("managed_disk_id", "azurerm_managed_disk.data.id"),
                ("virtual_machine_id", "azurerm_linux_virtual_machine.web.id"),
            ],
        );
        let r = map_data_disk_attachment(&res);
        assert_eq!(r.status, upcloud_migrate::migration::types::MigrationStatus::Partial);
        let snippet = r.snippet.unwrap();
        assert!(snippet.contains("storage_devices {"), "{snippet}");
        assert!(snippet.contains("upcloud_storage.data.id"), "{snippet}");
    }

    #[test]
    fn disk_attachment_no_upcloud_hcl() {
        let res = make_res("azurerm_virtual_machine_data_disk_attachment", "a", &[]);
        assert!(map_data_disk_attachment(&res).upcloud_hcl.is_none());
    }

    #[test]
    fn storage_account_generates_object_storage_and_bucket() {
        let res = make_res("azurerm_storage_account", "assets", &[("name", "myassets")]);
        let r = map_storage_account(&res);
        let hcl = r.upcloud_hcl.unwrap();
        assert!(hcl.contains("upcloud_managed_object_storage"), "{hcl}");
        assert!(
            hcl.contains("upcloud_managed_object_storage_bucket"),
            "{hcl}"
        );
    }

    #[test]
    fn storage_container_generates_bucket_resource() {
        let res = make_res(
            "azurerm_storage_container",
            "blobs",
            &[
                ("name", "my-container"),
                (
                    "storage_account_name",
                    "azurerm_storage_account.assets.name",
                ),
            ],
        );
        let r = map_storage_container(&res);
        assert_eq!(r.upcloud_type, "upcloud_managed_object_storage_bucket");
        let hcl = r.upcloud_hcl.unwrap();
        assert!(
            hcl.contains("upcloud_managed_object_storage.assets.id"),
            "{hcl}"
        );
    }

    #[test]
    fn storage_container_without_account_has_todo_ref() {
        let res = make_res("azurerm_storage_container", "blobs", &[]);
        let hcl = map_storage_container(&res).upcloud_hcl.unwrap();
        assert!(
            hcl.contains("upcloud_managed_object_storage.<TODO>.id"),
            "{hcl}"
        );
    }

    #[test]
    fn storage_share_generates_file_storage() {
        let res = make_res("azurerm_storage_share", "share", &[("quota", "1000")]);
        let r = map_storage_share(&res);
        assert_eq!(r.upcloud_type, "upcloud_file_storage");
        let hcl = r.upcloud_hcl.unwrap();
        assert!(
            hcl.contains("resource \"upcloud_file_storage\" \"share\""),
            "{hcl}"
        );
        assert!(hcl.contains("size              = 1000"), "{hcl}");
    }

    #[test]
    fn storage_share_minimum_size_is_250() {
        let res = make_res("azurerm_storage_share", "small", &[("quota", "10")]);
        let hcl = map_storage_share(&res).upcloud_hcl.unwrap();
        assert!(hcl.contains("size              = 250"), "{hcl}");
    }
