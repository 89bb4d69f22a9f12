use upcloud_migrate::migration::providers::azure::database::map_cosmosdb_account;
use upcloud_migrate::migration::providers::azure::database::map_mssql_database;
use upcloud_migrate::migration::providers::azure::database::map_mssql_server;
use upcloud_migrate::migration::providers::azure::database::map_mysql_flexible_server;
use upcloud_migrate::migration::providers::azure::database::map_mysql_server;
use upcloud_migrate::migration::providers::azure::database::map_postgresql_flexible_server;
use upcloud_migrate::migration::providers::azure::database::map_postgresql_server;
use upcloud_migrate::migration::providers::azure::database::map_redis_cache;
use upcloud_migrate::terraform::types::TerraformResource;

    fn make_res(resource_type: &str, name: &str, attrs: &[(&str, &str)]) -> TerraformResource {
        TerraformResource {
            resource_type: resource_type.to_string(),
            name: name.to_string(),
            attributes: attrs
                .iter()
                .map(|(k, v)| (k.to_string(), v.to_string()))
                .collect(),
            source_file: String::from("test.tf"),
            raw_hcl: String::new(),
        }
    }

    #[test]
    fn burstable_sku_maps_to_small_plan() {
        let res = make_res(
            "azurerm_postgresql_server",
            "db",
            &[("sku_name", "B_Gen5_1")],
        );
        let hcl = map_postgresql_server(&res).upcloud_hcl.unwrap();
        assert!(hcl.contains("1x1xCPU-2GB-25GB"), "{hcl}");
    }

    #[test]
    fn general_purpose_sku_maps_to_medium_plan() {
        let res = make_res(
            "azurerm_postgresql_server",
            "db",
            &[("sku_name", "GP_Gen5_4")],
        );
        let hcl = map_postgresql_server(&res).upcloud_hcl.unwrap();
        assert!(hcl.contains("1x2xCPU-4GB-50GB"), "{hcl}");
    }

    #[test]
    fn memory_optimized_sku_maps_to_large_plan() {
        let res = make_res(
            "azurerm_postgresql_server",
            "db",
            &[("sku_name", "MO_Gen5_8")],
        );
        let hcl = map_postgresql_server(&res).upcloud_hcl.unwrap();
        assert!(hcl.contains("2x4xCPU-8GB-100GB"), "{hcl}");
    }

    #[test]
    fn burstable_prefix_with_underscores_maps_to_small_plan() {
        let res = make_res(
            "azurerm_postgresql_server",
            "db",
            &[("sku_name", "B_Standard_B1ms")],
        );
        let hcl = map_postgresql_server(&res).upcloud_hcl.unwrap();
        assert!(hcl.contains("1x1xCPU-2GB-25GB"), "{hcl}");
    }

    #[test]
    fn postgresql_server_maps_to_pg_type() {
        let res = make_res("azurerm_postgresql_server", "pgdb", &[]);
        let r = map_postgresql_server(&res);
        assert_eq!(r.upcloud_type, "upcloud_managed_database_postgresql");
        let hcl = r.upcloud_hcl.unwrap();
        assert!(
            hcl.contains("resource \"upcloud_managed_database_postgresql\" \"pgdb\""),
            "{hcl}"
        );
    }

    #[test]
    fn postgresql_server_version_propagated() {
        let res = make_res("azurerm_postgresql_server", "db", &[("version", "15")]);
        let hcl = map_postgresql_server(&res).upcloud_hcl.unwrap();
        assert!(hcl.contains("version       = \"15\""), "{hcl}");
    }

    #[test]
    fn postgresql_server_defaults_version_16() {
        let res = make_res("azurerm_postgresql_server", "db", &[]);
        let hcl = map_postgresql_server(&res).upcloud_hcl.unwrap();
        assert!(hcl.contains("version       = \"16\""), "{hcl}");
    }

    #[test]
    fn postgresql_server_public_access_disabled() {
        let res = make_res("azurerm_postgresql_server", "db", &[]);
        let hcl = map_postgresql_server(&res).upcloud_hcl.unwrap();
        assert!(hcl.contains("public_access = false"), "{hcl}");
    }

    #[test]
    fn postgresql_server_has_private_network_block() {
        let res = make_res("azurerm_postgresql_server", "db", &[]);
        let hcl = map_postgresql_server(&res).upcloud_hcl.unwrap();
        assert!(hcl.contains("network {"), "{hcl}");
        assert!(hcl.contains("type   = \"private\""), "{hcl}");
        assert!(hcl.contains("<TODO: upcloud_network UUID>"), "{hcl}");
    }

    #[test]
    fn pg_flexible_maps_to_pg_type() {
        let res = make_res("azurerm_postgresql_flexible_server", "flex", &[]);
        assert_eq!(
            map_postgresql_flexible_server(&res).upcloud_type,
            "upcloud_managed_database_postgresql"
        );
    }

    #[test]
    fn mysql_server_maps_to_mysql_type() {
        let res = make_res("azurerm_mysql_server", "mydb", &[]);
        let r = map_mysql_server(&res);
        assert_eq!(r.upcloud_type, "upcloud_managed_database_mysql");
        assert!(
            r.upcloud_hcl
                .unwrap()
                .contains("upcloud_managed_database_mysql"),
            "type in HCL"
        );
    }

    #[test]
    fn mysql_flexible_maps_to_mysql_type() {
        let res = make_res("azurerm_mysql_flexible_server", "flex", &[]);
        assert_eq!(
            map_mysql_flexible_server(&res).upcloud_type,
            "upcloud_managed_database_mysql"
        );
    }

    #[test]
    fn redis_basic_c0_maps_to_valkey_small_plan() {
        let res = make_res(
            "azurerm_redis_cache",
            "cache",
            &[("sku_name", "Basic"), ("capacity", "0")],
        );
        let r = map_redis_cache(&res);
        assert_eq!(r.upcloud_type, "upcloud_managed_database_valkey");
        let hcl = r.upcloud_hcl.unwrap();
        assert!(
            hcl.contains("resource \"upcloud_managed_database_valkey\" \"cache\""),
            "{hcl}"
        );
        assert!(hcl.contains("1x1xCPU-2GB"), "{hcl}");
    }

    #[test]
    fn redis_premium_maps_to_large_valkey_plan() {
        let res = make_res(
            "azurerm_redis_cache",
            "cache",
            &[("sku_name", "Premium"), ("capacity", "1")],
        );
        let hcl = map_redis_cache(&res).upcloud_hcl.unwrap();
        assert!(hcl.contains("1x4xCPU-28GB"), "{hcl}");
    }

    #[test]
    fn redis_has_public_access_disabled() {
        let res = make_res("azurerm_redis_cache", "cache", &[]);
        let hcl = map_redis_cache(&res).upcloud_hcl.unwrap();
        assert!(hcl.contains("public_access = false"), "{hcl}");
    }

    #[test]
    fn cosmosdb_is_unsupported() {
        let res = make_res("azurerm_cosmosdb_account", "cosmos", &[]);
        let r = map_cosmosdb_account(&res);
        assert_eq!(
            r.status,
            upcloud_migrate::migration::types::MigrationStatus::Unsupported
        );
        assert!(r.upcloud_hcl.is_none());
    }

    #[test]
    fn mssql_server_is_unsupported() {
        let res = make_res("azurerm_mssql_server", "sql", &[]);
        let r = map_mssql_server(&res);
        assert_eq!(
            r.status,
            upcloud_migrate::migration::types::MigrationStatus::Unsupported
        );
        assert!(r.upcloud_hcl.is_none());
    }

    #[test]
    fn mssql_database_is_unsupported() {
        let res = make_res("azurerm_mssql_database", "sqldb", &[]);
        let r = map_mssql_database(&res);
        assert_eq!(
            r.status,
            upcloud_migrate::migration::types::MigrationStatus::Unsupported
        );
    }
