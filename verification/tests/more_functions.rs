use upcloud_migrate::graph::build_graph_from_hcl;
use upcloud_migrate::migration::providers::aws::network::sg_rules_from_blocks;
use upcloud_migrate::migration::providers::azure::network::nsg_rules_from_blocks;
use upcloud_migrate::migration::cross_ref::{login_keys_from_blocks, LoginKeysValue};
use upcloud_migrate::migration::providers::azure::database::{map_postgresql_flexible_server_configuration, map_postgresql_flexible_server_database};
use upcloud_migrate::migration::providers::azure::generator_support::appgw_blocks_complete;
use upcloud_migrate::migration::providers::azure::network::map_subnet_nsg_association;
use upcloud_migrate::migration::scorer::{top_blockers, StatusBreakdown};
use upcloud_migrate::migration::types::{MigrationResult, MigrationStatus};
use upcloud_migrate::terraform::types::TerraformResource;

fn res(rt: &str, name: &str, attrs: &[(&str, &str)]) -> TerraformResource {
    TerraformResource {
        resource_type: rt.to_string(),
        name: name.to_string(),
        attributes: attrs.iter().map(|(k, v)| (k.to_string(), v.to_string())).collect(),
        source_file: "main.tf".to_string(),
        raw_hcl: String::new(),
    }
}

fn result(rt: &str, status: MigrationStatus) -> MigrationResult {
    MigrationResult {
        resource_type: rt.to_string(),
        resource_name: "x".to_string(),
        source_file: "main.tf".to_string(),
        status,
        upcloud_type: String::new(),
        upcloud_hcl: None,
        snippet: None,
        parent_resource: None,
        notes: vec![],
        source_hcl: None,
    }
}

#[test]
fn graph_from_resolved_hcl_links_referenced_resources() {
    let map = vec![
        (("upcloud_server".to_string(), "web".to_string()), "network = upcloud_network.main.id".to_string()),
        (("upcloud_network".to_string(), "main".to_string()), "zone = \"fi-hel2\"".to_string()),
    ];
    let nodes = build_graph_from_hcl(&map);
    assert_eq!(nodes.len(), 2);
    assert_eq!(nodes[0].name, "upcloud_network.main");
    assert!(nodes[0].deps.is_empty());
    assert_eq!(nodes[1].name, "upcloud_server.web");
    assert_eq!(nodes[1].deps, vec!["upcloud_network.main".to_string()]);
}

#[test]
fn status_breakdown_counts_each_status() {
    let rs = vec![
        result("a", MigrationStatus::Native),
        result("b", MigrationStatus::Native),
        result("c", MigrationStatus::Partial),
        result("d", MigrationStatus::Unknown),
        result("e", MigrationStatus::Passthrough),
    ];
    let b = StatusBreakdown::from_results(&rs);
    assert_eq!((b.native, b.compatible, b.partial, b.unsupported, b.unknown), (2, 0, 1, 0, 1));
}

#[test]
fn top_blockers_are_most_frequent_unsupported_types_first() {
    let rs = vec![
        result("aws_sqs_queue", MigrationStatus::Unsupported),
        result("aws_sns_topic", MigrationStatus::Unsupported),
        result("aws_sqs_queue", MigrationStatus::Unsupported),
        result("aws_lambda_function", MigrationStatus::Unsupported),
        result("aws_api_gateway", MigrationStatus::Unsupported),
        result("aws_instance", MigrationStatus::Native),
    ];
    assert_eq!(
        top_blockers(&rs),
        vec![
            ("aws_sqs_queue".to_string(), 2),
            ("aws_api_gateway".to_string(), 1),
            ("aws_lambda_function".to_string(), 1),
        ]
    );
}

#[test]
fn subnet_nsg_association_is_consumed_by_firewall_resolution() {
    let r = map_subnet_nsg_association(&res("azurerm_subnet_network_security_group_association", "a", &[]));
    assert_eq!(r.status, MigrationStatus::Native);
    assert_eq!(r.upcloud_type, "(consumed by firewall resolution)");
    assert!(r.upcloud_hcl.is_none());
    assert!(r.notes.is_empty());
}

#[test]
fn postgresql_database_is_left_to_manual_creation() {
    let r = map_postgresql_flexible_server_database(&res(
        "azurerm_postgresql_flexible_server_database",
        "app",
        &[("name", "\"appdb\""), ("server_id", "azurerm_postgresql_flexible_server.main.id")],
    ));
    assert_eq!(r.status, MigrationStatus::Partial);
    assert_eq!(r.upcloud_type, "(no separate sub-database resource)");
    assert_eq!(
        r.notes,
        vec![
            "UpCloud Managed PostgreSQL has no dedicated Terraform resource for sub-databases.".to_string(),
            "Create the 'appdb' database manually after provisioning upcloud_managed_database_postgresql.main or via an init script.".to_string(),
        ]
    );
}

#[test]
fn postgresql_configuration_becomes_properties_snippet() {
    let r = map_postgresql_flexible_server_configuration(&res(
        "azurerm_postgresql_flexible_server_configuration",
        "c",
        &[("name", "\"work_mem\""), ("value", "\"64MB\"")],
    ));
    assert_eq!(r.status, MigrationStatus::Partial);
    assert_eq!(
        r.snippet.as_deref(),
        Some("  # Add to upcloud_managed_database_postgresql.<TODO>:\n  properties {\n    # work_mem = \"64MB\"\n  }\n")
    );
    assert_eq!(r.notes[0], "PostgreSQL configuration 'work_mem' = '64MB' should be set in the properties block of upcloud_managed_database_postgresql.<TODO>.");
}

#[test]
fn appgw_blocks_complete_needs_closed_blocks() {
    assert!(appgw_blocks_complete("resource \"azurerm_application_gateway\" \"g\" {\n  name = \"g\"\n}\n"));
    assert!(!appgw_blocks_complete("resource \"azurerm_application_gateway\" \"g\" {\n  probe {\n    name = \"p\"\n"));
}

fn attrs(pairs: &[(&str, &str)]) -> Vec<(String, String)> {
    pairs.iter().map(|(k, v)| (k.to_string(), v.to_string())).collect()
}

#[test]
fn sg_rules_come_from_ingress_and_egress_blocks() {
    let blocks = vec![
        ("ingress".to_string(), attrs(&[("from_port", "22"), ("to_port", "22"), ("protocol", "\"tcp\""), ("cidr_blocks", "[\"10.0.0.0/8\"]")])),
        ("tags".to_string(), attrs(&[])),
        ("egress".to_string(), attrs(&[("from_port", "0"), ("to_port", "0"), ("protocol", "\"-1\""), ("cidr_blocks", "[\"0.0.0.0/0\"]")])),
    ];
    let r = sg_rules_from_blocks(&blocks);
    assert_eq!(r, vec![
        ("in".to_string(), 22, 22, "tcp".to_string(), None, false),
        ("out".to_string(), 0, 0, "-1".to_string(), None, true),
    ]);
}

#[test]
fn nsg_rules_keep_only_allowing_security_rules() {
    let blocks = vec![
        ("security_rule".to_string(), attrs(&[("direction", "\"Inbound\""), ("destination_port_range", "\"443\""), ("protocol", "\"Tcp\""), ("access", "\"Allow\"")])),
        ("security_rule".to_string(), attrs(&[("direction", "\"Inbound\""), ("destination_port_range", "\"22\""), ("access", "\"Deny\"")])),
    ];
    let r = nsg_rules_from_blocks(&blocks);
    assert_eq!(r, vec![("in".to_string(), 443, 443, "tcp".to_string(), None, false)]);
}

#[test]
fn login_key_is_first_element_of_first_login_keys() {
    let blocks = vec![(
        "login".to_string(),
        vec![("keys".to_string(), Some(vec![(Some("ssh-rsa AAA".to_string()), "\"ssh-rsa AAA\"".to_string())]))],
    )];
    match login_keys_from_blocks(&blocks) {
        Some(LoginKeysValue::Literal(k)) => assert_eq!(k, "ssh-rsa AAA"),
        other => panic!("unexpected {:?}", other),
    }
    let todo = vec![(
        "login".to_string(),
        vec![("keys".to_string(), Some(vec![(None, "<TODO: key>".to_string())]))],
    )];
    assert!(login_keys_from_blocks(&todo).is_none());
}
