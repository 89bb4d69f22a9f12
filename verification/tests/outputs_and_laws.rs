use upcloud_migrate::ai::{chat_endpoint, chat_messages, todo_prompt, ChatMessage};
use upcloud_migrate::graph::parse_dot;
use upcloud_migrate::migration::mapper::map_resource;
use upcloud_migrate::migration::output::{generate_outputs, generate_outputs_checked, migration_notes, output_file_names, providers_tf};
use upcloud_migrate::migration::providers::aws::generator_support::{rewrite_output_refs, rewrite_output_refs_bounded};
use upcloud_migrate::migration::generator::remove_todo_interpolations;
use upcloud_migrate::migration::providers::shared::sanitize_provider_refs;
use upcloud_migrate::migration::providers::aws::AwsSourceProvider;
use upcloud_migrate::migration::providers::shared::{firewall_rule_blocks, FIREWALL_CATCHALL_EGRESS};
use upcloud_migrate::migration::types::{MigrationResult, MigrationStatus};
use upcloud_migrate::migration::var_detector::{apply_conversion_to_hcl, VarConversion, VarKind};
use upcloud_migrate::terraform::types::{PassthroughBlock, PassthroughKind, TerraformResource};

fn result(rt: &str, name: &str, file: &str, status: MigrationStatus, ut: &str, hcl: Option<&str>) -> MigrationResult {
    MigrationResult {
        resource_type: rt.to_string(),
        resource_name: name.to_string(),
        source_file: file.to_string(),
        status,
        upcloud_type: ut.to_string(),
        upcloud_hcl: hcl.map(str::to_string),
        snippet: None,
        parent_resource: None,
        notes: vec![],
        source_hcl: None,
    }
}

fn pt(kind: PassthroughKind, name: &str, raw: &str, file: &str) -> PassthroughBlock {
    PassthroughBlock { kind, name: Some(name.to_string()), raw_hcl: raw.to_string(), source_file: file.to_string() }
}

const PROVIDERS_BASE: &str = "terraform {\n  required_providers {\n    upcloud = {\n      source  = \"UpCloudLtd/upcloud\"\n      version = \"~> 5.0\"\n    }\n  }\n}\n\nvariable \"upcloud_token\" {\n  description = \"UpCloud API token\"\n  type        = string\n  sensitive   = true\n}\n\nprovider \"upcloud\" {\n  token = var.upcloud_token\n}\n";

#[test]
fn providers_tf_without_other_providers_is_the_upcloud_block() {
    assert_eq!(providers_tf(&[]), PROVIDERS_BASE);
}

#[test]
fn providers_tf_keeps_upcloud_and_adds_other_providers() {
    let pts = vec![
        pt(PassthroughKind::Provider, "kubernetes", "provider \"kubernetes\" {}", "main.tf"),
        pt(PassthroughKind::Provider, "required_provider:kubernetes", "kubernetes = { source = \"hashicorp/kubernetes\" }", "main.tf"),
        pt(PassthroughKind::Variable, "x", "variable \"x\" {}", "main.tf"),
    ];
    let out = providers_tf(&pts);
    assert!(out.starts_with("terraform {\n  required_providers {\n    upcloud = {"), "{out}");
    assert!(out.contains("    kubernetes = { source = \"hashicorp/kubernetes\" }\n  }\n}"), "{out}");
    assert!(out.ends_with("token = var.upcloud_token\n}\n\nprovider \"kubernetes\" {}\n"), "{out}");
    assert!(!out.contains("variable \"x\""), "{out}");
}

#[test]
fn migration_notes_absent_for_passthrough_only_results() {
    let rs = vec![result("kubernetes_namespace", "ns", "k.tf", MigrationStatus::Passthrough, "kubernetes_namespace", Some("resource \"kubernetes_namespace\" \"ns\" {}"))];
    assert!(migration_notes(&rs, "fi-hel2", "europe-1", &AwsSourceProvider).is_none());
}

#[test]
fn migration_notes_list_partial_and_unsupported_resources() {
    let mut partial = result("aws_route_table", "rt", "net.tf", MigrationStatus::Partial, "static_route", None);
    partial.snippet = Some("static_route {}".to_string());
    partial.notes = vec!["merge into router".to_string()];
    let mut unsupported = result("aws_sqs_queue", "q", "q.tf", MigrationStatus::Unsupported, "", None);
    unsupported.notes = vec!["no equivalent".to_string()];
    let (text, np, nu) = migration_notes(&[partial, unsupported], "fi-hel2", "europe-1", &AwsSourceProvider).unwrap();
    assert_eq!((np, nu), (1, 1));
    assert!(text.starts_with("# Migration Notes\n\nTarget zone: **fi-hel2**  \nObject storage region: **europe-1**\n\n"), "{text}");
    assert!(text.contains("### `aws_route_table` **rt**  *(net.tf)*\n\nmerge into router\n\n```hcl\nstatic_route {}\n```\n\n"), "{text}");
    assert!(text.contains("- **aws_sqs_queue** `q` *(q.tf)*\n  - no equivalent\n"), "{text}");
}

#[test]
fn output_files_in_order_of_first_appearance_with_ssh_key_variable() {
    let rs = vec![
        result("aws_instance", "web", "dir/b.tf", MigrationStatus::Native, "upcloud_server", Some("keys = [var.ssh_public_key]")),
        result("aws_sqs_queue", "q", "c.tf", MigrationStatus::Unsupported, "", None),
        result("aws_instance", "api", "a.tf", MigrationStatus::Native, "upcloud_server", Some("x")),
        result("aws_instance", "db", "other/a.tf", MigrationStatus::Native, "upcloud_server", Some("y")),
    ];
    let pts = vec![pt(PassthroughKind::Variable, "region", "variable \"region\" {}", "vars.tf")];
    let (names, ssh) = output_file_names(&rs, &pts);
    assert_eq!(names, vec!["b.tf".to_string(), "a.tf".to_string(), "vars.tf".to_string()]);
    assert_eq!(ssh, "vars.tf");
}

#[test]
fn generated_file_reports_parser_error_only_without_todo() {
    let rs = vec![
        result("aws_s3_bucket", "b", "bad.tf", MigrationStatus::Native, "upcloud_object_storage", Some("resource \"upcloud_object_storage\" \"b\" {\n  name = \n}\n")),
        result("aws_s3_bucket", "c", "todo.tf", MigrationStatus::Native, "upcloud_object_storage", Some("resource \"upcloud_object_storage\" \"c\" {\n  name = <TODO: x>\n}\n")),
        result("aws_s3_bucket", "d", "good.tf", MigrationStatus::Native, "upcloud_object_storage", Some("resource \"upcloud_object_storage\" \"d\" {\n  name = \"d\"\n}\n")),
    ];
    let out = generate_outputs(&rs, &[], "fi-hel2", "europe-1");
    let by_name = |n: &str| out.files.iter().find(|f| f.name == n).unwrap();
    assert!(by_name("bad.tf").hcl_error.is_some());
    assert!(by_name("todo.tf").hcl_error.is_none());
    assert!(by_name("good.tf").hcl_error.is_none());
    assert!(by_name("good.tf").content.starts_with("# Migrated from AWS Terraform\n# Source: good.tf\n# Target zone: fi-hel2\n\n# aws_s3_bucket d\n"));
}

#[test]
fn firewall_written_once_when_two_files_target_the_same_server() {
    let server = result("aws_instance", "web", "a.tf", MigrationStatus::Native, "upcloud_server",
        Some("resource \"upcloud_server\" \"web\" {\n  hostname = \"web\"\n}\n"));
    let fw = "resource \"upcloud_firewall_rules\" \"web\" {\n  server_id = upcloud_server.<TODO>.id\n\n  firewall_rule {\n    direction = \"in\"\n    action    = \"accept\"\n    family    = \"IPv4\"\n  }\n}\n";
    let fw_a = result("aws_security_group", "web", "a.tf", MigrationStatus::Native, "upcloud_firewall_rules", Some(fw));
    let fw_b = result("aws_security_group", "web", "b.tf", MigrationStatus::Native, "upcloud_firewall_rules", Some(fw));
    let out = generate_outputs(&[server, fw_a, fw_b], &[], "fi-hel2", "europe-1");
    let a = &out.files.iter().find(|f| f.name == "a.tf").unwrap().content;
    let b = out.files.iter().find(|f| f.name == "b.tf").unwrap();
    assert_eq!(a.matches("\nresource \"upcloud_firewall_rules\"").count(), 1, "{a}");
    assert!(!b.content.contains("\nresource \"upcloud_firewall_rules\""), "{}", b.content);
    assert!(b.content.contains("# WARNING: firewall rules for server 'web' were already written by another output file."), "{}", b.content);
    assert!(b.log.iter().any(|l| l.contains("[WARN] upcloud_firewall_rules for 'web'")), "{:?}", b.log);
}

#[test]
fn non_cloud_resource_is_passed_through_as_written() {
    let raw = "resource \"helm_release\" \"x\" {\n  chart = \"nginx\"\n}";
    let res = TerraformResource {
        resource_type: "helm_release".to_string(),
        name: "x".to_string(),
        attributes: vec![("chart".to_string(), "\"nginx\"".to_string())],
        source_file: "main.tf".to_string(),
        raw_hcl: raw.to_string(),
    };
    let r = map_resource(&res);
    assert_eq!(r.status, MigrationStatus::Passthrough);
    assert_eq!(r.upcloud_hcl.as_deref(), Some(raw));
    assert_eq!(r.source_hcl.as_deref(), Some(raw));
    assert_eq!(r.upcloud_type, "helm_release");
}

#[test]
fn rewrites_leave_text_without_provider_refs_unchanged() {
    let s = "output \"ip\" {\n  value = var.server_ip\n}\n";
    assert_eq!(upcloud_migrate::migration::providers::aws::generator_support::rewrite_output_refs(s), s);
    assert_eq!(upcloud_migrate::migration::providers::azure::generator_support::rewrite_output_refs(s), s);
}

#[test]
fn conversion_without_default_line_keeps_the_block() {
    let conv = VarConversion {
        kind: VarKind::InstanceType,
        confidence: 6,
        converted_value: Some("1xCPU-1GB".to_string()),
        original_default: Some("t3.micro".to_string()),
        signals: vec![],
    };
    let raw = "variable \"size\" {\n  type = string\n  description = \"t3.micro\"\n}";
    assert_eq!(apply_conversion_to_hcl(raw, &conv), raw);
    let with_default = "variable \"size\" {\n  default = \"t3.micro\"\n}\n";
    assert_eq!(apply_conversion_to_hcl(with_default, &conv), "variable \"size\" {\n  default = \"1xCPU-1GB\"\n}\n");
}

#[test]
fn firewall_without_rules_gets_catch_all_outbound() {
    assert_eq!(firewall_rule_blocks(&vec![], "-1"), FIREWALL_CATCHALL_EGRESS);
    let out_all = vec![("out".to_string(), 0, 0, "-1".to_string(), None, true)];
    let blocks = firewall_rule_blocks(&out_all, "-1");
    assert!(!blocks.contains("Allow all outbound"), "{blocks}");
    assert!(blocks.contains("direction = \"out\""), "{blocks}");
}

#[test]
fn parsed_graph_nodes_come_sorted_by_name() {
    let dot = "digraph {\n  \"[root] b.x (expand)\" [label = \"b.x\", shape = \"box\"]\n  \"[root] a.y (expand)\" [label = \"a.y\", shape = \"box\"]\n  \"[root] c.z (expand)\" [label = \"c.z\", shape = \"box\"]\n  \"[root] c.z (expand)\" -> \"[root] a.y (expand)\"\n}\n";
    let nodes = parse_dot(dot);
    let names: Vec<&str> = nodes.iter().map(|n| n.name.as_str()).collect();
    assert_eq!(names, vec!["a.y", "b.x", "c.z"]);
    assert_eq!(nodes[2].deps, vec!["a.y".to_string()]);
}

#[test]
fn chat_endpoint_drops_trailing_slashes() {
    assert_eq!(chat_endpoint("https://llm.example//"), "https://llm.example/v1/chat/completions");
    assert_eq!(chat_endpoint("https://llm.example"), "https://llm.example/v1/chat/completions");
}

#[test]
fn chat_messages_start_with_system_prompt_and_keep_roles() {
    let ms = vec![ChatMessage::user("hi"), ChatMessage::ai("hello")];
    let r = chat_messages(&ms, "resource {}");
    assert_eq!(r.len(), 3);
    assert_eq!(r[0].0, "system");
    assert!(r[0].1.ends_with("--- GENERATED TERRAFORM ---\nresource {}"), "{}", r[0].1);
    assert_eq!(r[1], ("user".to_string(), "hi".to_string()));
    assert_eq!(r[2], ("assistant".to_string(), "hello".to_string()));
}

#[test]
fn todo_prompt_names_file_line_and_context() {
    let p = todo_prompt("main.tf", 12, "   ip = \"<TODO: ip>\"  ", "<TODO: ip>", &["a".to_string(), "b".to_string()]);
    assert!(p.starts_with("You are helping migrate AWS Terraform to UpCloud Terraform.\nFile: main.tf\nLine 12: ip = \"<TODO: ip>\"\nPlaceholder: <TODO: ip>\n\nContext:\na\nb\n\nSuggest a concrete value to replace <TODO: ip>.\nRules:\n"), "{p}");
    assert!(p.ends_with("- For access restrictions: suggest 0.0.0.0/0"), "{p}");
}

#[test]
fn bounded_output_rewrite_agrees_with_unbounded_and_stops_at_zero() {
    let input = "output \"vpc_id\" {\n  value = aws_vpc.main.id\n}";
    let full = rewrite_output_refs(input);
    assert!(full.contains("upcloud_router.main_router.id"), "{full}");
    assert_eq!(rewrite_output_refs_bounded(input, 1_000_000), Some(full));
    assert_eq!(rewrite_output_refs_bounded(input, 0), None);
}

#[test]
fn checked_generation_agrees_with_generation_and_reports_a_short_bound() {
    let rs = vec![result("aws_instance", "web", "main.tf", MigrationStatus::Native, "upcloud_server", Some("resource \"upcloud_server\" \"web\" {\n}\n"))];
    let pts = vec![pt(PassthroughKind::Output, "ip", "output \"ip\" {\n  value = aws_vpc.main.id\n}\n", "outputs.tf")];
    let plain = generate_outputs(&rs, &pts, "fi-hel1", "europe-1");
    let checked = generate_outputs_checked(&rs, &pts, "fi-hel1", "europe-1", 1_000_000).expect("a large bound suffices");
    assert_eq!(checked.providers_tf, plain.providers_tf);
    assert_eq!(checked.files.len(), plain.files.len());
    for (a, b) in checked.files.iter().zip(plain.files.iter()) {
        assert_eq!(a.name, b.name);
        assert_eq!(a.content, b.content);
    }
    assert!(generate_outputs_checked(&rs, &pts, "fi-hel1", "europe-1", 0).is_none());
}

#[test]
fn todo_interpolation_becomes_its_marker() {
    assert_eq!(remove_todo_interpolations("a=${<TODO: x>.y}".to_string()), "a=<TODO: x>");
    assert_eq!(remove_todo_interpolations("a=${var.x}".to_string()), "a=${var.x}");
}

#[test]
fn sanitize_skips_refs_already_inside_a_marker() {
    let r = sanitize_provider_refs("x = \"<TODO: data.aws_ami.a>\"\ny = data.aws_ami.b.id\n".to_string(), "aws_", "aws_", "AWS");
    assert_eq!(r, "x = \"<TODO: data.aws_ami.a>\"\ny = <TODO: remove AWS data source ref>\n");
}

#[test]
fn sanitize_handles_a_prefix_that_occurs_in_the_marker_text() {
    let r = sanitize_provider_refs("x = re.a.b\n".to_string(), "re", "re", "AWS");
    assert_eq!(r, "x = <TODO: remove AWS resource ref>\n");
}
