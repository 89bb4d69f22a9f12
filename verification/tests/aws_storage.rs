use upcloud_migrate::migration::providers::aws::storage::map_ebs_volume;
use upcloud_migrate::migration::providers::aws::storage::map_efs_file_system;
use upcloud_migrate::migration::providers::aws::storage::map_s3_bucket;
use upcloud_migrate::migration::providers::aws::storage::map_s3_bucket_policy;
use upcloud_migrate::migration::providers::aws::storage::map_volume_attachment;
use upcloud_migrate::terraform::types::TerraformResource;

    fn make_res(resource_type: &str, name: &str, attrs: &[(&str, &str)]) -> TerraformResource {
        TerraformResource {
            resource_type: resource_type.to_string(),
            name: name.to_string(),
            attributes: attrs.iter().map(|(k, v)| (k.to_string(), v.to_string())).collect(),
            source_file: String::from("test.tf"),
            raw_hcl: String::new(),
        }
    }

    #[test]
    fn ebs_gp2_maps_to_maxiops() {
        let res = make_res("aws_ebs_volume", "data", &[("type", "gp2"), ("size", "50")]);
        let r = map_ebs_volume(&res);
        assert_eq!(r.upcloud_type, "upcloud_storage");
        let hcl = r.upcloud_hcl.unwrap();
        assert!(hcl.contains("resource \"upcloud_storage\" \"data\""), "{hcl}");
        assert!(hcl.contains("tier  = \"maxiops\""), "{hcl}");
    }

    #[test]
    fn ebs_gp3_maps_to_maxiops() {
        let res = make_res("aws_ebs_volume", "v", &[("type", "gp3"), ("size", "100")]);
        assert!(map_ebs_volume(&res).upcloud_hcl.unwrap().contains("maxiops"));
    }

    #[test]
    fn ebs_io1_maps_to_maxiops() {
        let res = make_res("aws_ebs_volume", "v", &[("type", "io1"), ("size", "20")]);
        assert!(map_ebs_volume(&res).upcloud_hcl.unwrap().contains("maxiops"));
    }

    #[test]
    fn ebs_st1_maps_to_hdd() {
        let res = make_res("aws_ebs_volume", "cold", &[("type", "st1"), ("size", "500")]);
        let hcl = map_ebs_volume(&res).upcloud_hcl.unwrap();
        assert!(hcl.contains("tier  = \"hdd\""), "{hcl}");
    }

    #[test]
    fn ebs_sc1_maps_to_hdd() {
        let res = make_res("aws_ebs_volume", "archive", &[("type", "sc1"), ("size", "1000")]);
        assert!(map_ebs_volume(&res).upcloud_hcl.unwrap().contains("hdd"));
    }

    #[test]
    fn ebs_size_propagated() {
        let res = make_res("aws_ebs_volume", "big", &[("type", "gp2"), ("size", "200")]);
        let hcl = map_ebs_volume(&res).upcloud_hcl.unwrap();
        assert!(hcl.contains("size  = 200"), "{hcl}");
    }

    #[test]
    fn ebs_defaults_to_20gb_maxiops_when_no_attrs() {
        let res = make_res("aws_ebs_volume", "v", &[]);
        let hcl = map_ebs_volume(&res).upcloud_hcl.unwrap();
        assert!(hcl.contains("size  = 20"), "{hcl}");
        assert!(hcl.contains("maxiops"), "{hcl}");
    }

    #[test]
    fn ebs_with_count_propagates_count_and_indexed_title() {
        let res = make_res("aws_ebs_volume", "web_data", &[
            ("type", "gp3"),
            ("size", "50"),
            ("count", "var.web_server_count"),
        ]);
        let r = map_ebs_volume(&res);
        let hcl = r.upcloud_hcl.unwrap();
        assert!(hcl.contains("count = var.web_server_count"), "count should be propagated\n{hcl}");
        assert!(hcl.contains("web_data-${count.index + 1}"), "title should use count.index\n{hcl}");
        assert!(r.notes.iter().any(|n| n.contains("count")), "should note count propagation\n{:?}", r.notes);
    }

    #[test]
    fn s3_bucket_generates_object_storage_and_bucket() {
        let res = make_res("aws_s3_bucket", "assets", &[("bucket", "my-assets-bucket")]);
        let r = map_s3_bucket(&res);
        assert!(r.upcloud_type.contains("upcloud_managed_object_storage"));
        let hcl = r.upcloud_hcl.unwrap();
        assert!(hcl.contains("resource \"upcloud_managed_object_storage\" \"assets\""), "{hcl}");
        assert!(hcl.contains("resource \"upcloud_managed_object_storage_bucket\" \"assets_bucket\""), "{hcl}");
        assert!(hcl.contains("name         = \"my-assets-bucket\""), "{hcl}");
    }

    #[test]
    fn s3_bucket_name_falls_back_to_resource_name() {
        let res = make_res("aws_s3_bucket", "my_bucket", &[]);
        let hcl = map_s3_bucket(&res).upcloud_hcl.unwrap();
        // When no bucket attribute, falls back to name with _ replaced by -
        assert!(hcl.contains("my-bucket"), "{hcl}");
    }

    #[test]
    fn s3_bucket_references_object_storage_id() {
        let res = make_res("aws_s3_bucket", "store", &[("bucket", "data")]);
        let hcl = map_s3_bucket(&res).upcloud_hcl.unwrap();
        assert!(
            hcl.contains("service_uuid = upcloud_managed_object_storage.store.id"),
            "{hcl}"
        );
    }

    #[test]
    fn s3_bucket_policy_is_partial_no_hcl() {
        let res = make_res("aws_s3_bucket_policy", "pol", &[]);
        let r = map_s3_bucket_policy(&res);
        assert_eq!(r.status, upcloud_migrate::migration::types::MigrationStatus::Partial);
        assert!(r.upcloud_hcl.is_none());
    }

    #[test]
    fn volume_attachment_generates_storage_devices_snippet() {
        let res = make_res("aws_volume_attachment", "attach", &[
            ("volume_id", "aws_ebs_volume.data.id"),
            ("instance_id", "aws_instance.web.id"),
        ]);
        let r = map_volume_attachment(&res);
        assert_eq!(r.upcloud_type, "storage_devices block in upcloud_server");
        assert!(r.upcloud_hcl.is_none(), "no standalone HCL resource");
        let snippet = r.snippet.unwrap();
        assert!(snippet.contains("storage_devices"), "{snippet}");
        assert!(snippet.contains("upcloud_storage.data.id"), "{snippet}");
        assert!(snippet.contains("upcloud_server\" \"web\""), "{snippet}");
    }

    #[test]
    fn volume_attachment_without_refs_has_todo_snippet() {
        let res = make_res("aws_volume_attachment", "a", &[]);
        let snippet = map_volume_attachment(&res).snippet.unwrap();
        assert!(snippet.contains("storage_devices"), "{snippet}");
        assert!(snippet.contains("<TODO: storage>"), "{snippet}");
        assert!(snippet.contains("<TODO: server>"), "{snippet}");
    }

    #[test]
    fn efs_generates_file_storage() {
        let res = make_res("aws_efs_file_system", "shared", &[]);
        let r = map_efs_file_system(&res);
        assert_eq!(r.upcloud_type, "upcloud_file_storage");
        let hcl = r.upcloud_hcl.unwrap();
        assert!(hcl.contains("resource \"upcloud_file_storage\" \"shared\""), "{hcl}");
        assert!(hcl.contains("zone              = \"__ZONE__\""), "{hcl}");
        assert!(hcl.contains("name              = \"shared\""), "{hcl}");
        assert!(hcl.contains("configured_status = \"started\""), "{hcl}");
    }
