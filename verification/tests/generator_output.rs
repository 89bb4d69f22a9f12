use upcloud_migrate::migration::output::{generate_outputs, GeneratedOutput};
use upcloud_migrate::migration::providers::aws::compute::map_instance;
use upcloud_migrate::migration::providers::aws::storage::{map_ebs_volume, map_volume_attachment};
use upcloud_migrate::migration::types::{MigrationResult, MigrationStatus};
use upcloud_migrate::terraform::types::{PassthroughBlock, PassthroughKind, TerraformResource};

fn make_result(
    resource_type: &str,
    resource_name: &str,
    upcloud_type: &str,
    upcloud_hcl: Option<&str>,
    snippet: Option<&str>,
) -> MigrationResult {
    MigrationResult {
        resource_type: resource_type.to_string(),
        resource_name: resource_name.to_string(),
        source_file: "test.tf".to_string(),
        status: MigrationStatus::Native,
        upcloud_type: upcloud_type.to_string(),
        upcloud_hcl: upcloud_hcl.map(str::to_string),
        snippet: snippet.map(str::to_string),
        parent_resource: None,
        notes: vec![],
        source_hcl: None,
    }
}

fn generate(results: &[MigrationResult], pts: &[PassthroughBlock], zone: &str) -> GeneratedOutput {
    generate_outputs(results, pts, zone, "europe-1")
}

/// The content of one output file, by name.
fn file_content(out: &GeneratedOutput, name: &str) -> Option<String> {
    if name == "providers.tf" {
        return Some(out.providers_tf.clone());
    }
    if name == "MIGRATION_NOTES.md" {
        return out.notes.as_ref().map(|n| n.0.clone());
    }
    out.files.iter().find(|f| f.name == name).map(|f| f.content.clone())
}

/// The log lines of a generation, in the order they are reported.
fn all_log(out: &GeneratedOutput) -> Vec<String> {
    let mut log = vec!["  [OK] providers.tf".to_string()];
    for f in &out.files {
        log.extend(f.log.iter().cloned());
        log.push(format!("  [OK] {}", f.name));
        if let Some(e) = &f.hcl_error {
            log.push(format!("  [HCL ERR] {} — {}", f.name, e));
        }
    }
    log
}

fn run_generate(results: &[MigrationResult], _test_name: &str) -> String {
    file_content(&generate(results, &[], "fi-hel2"), "test.tf").expect("generation must have produced test.tf")
}

    #[test]
    fn aws_prefixed_variable_gets_review_comment_not_todo() {

        let pt = PassthroughBlock {
            name: Some("aws_region".to_string()),
            raw_hcl: "variable \"aws_region\" {\n  default = \"us-east-1\"\n}".to_string(),
            source_file: String::from("test.tf"),
            kind: PassthroughKind::Variable,
        };
        let out = generate(&[], &[pt], "fi-hel2");
        let log = all_log(&out);
        let output = file_content(&out, "test.tf")
            .expect("generate_files must produce test.tf");

        // Must have the review comment (but NOT a <TODO:> in the name — that breaks HCL).
        assert!(
            output.contains("# NOTE: Variable name 'aws_region'"),
            "{output}"
        );
        assert!(
            !output.contains("<TODO:"),
            "must not inject TODO into variable name\n{output}"
        );
        // The variable block itself must still be present with the original name.
        assert!(output.contains("variable \"aws_region\""), "{output}");

        // Must be parseable.
        hcl::from_str::<hcl::Body>(&output).expect("output must be valid HCL");
    }

    #[test]
    fn azure_nsg_resolves_to_server_via_subnet_association_and_nic() {
        // Azure NSGs are attached to subnets, not directly to VMs.
        // VMs reference NICs, and NICs reference subnets.
        // The chain is: NSG→association→subnet→NIC→VM
        let nsg = make_result(
            "azurerm_network_security_group",
            "web_nsg",
            "upcloud_firewall_rules",
            Some(
                r#"resource "upcloud_firewall_rules" "web_nsg" {
  server_id = upcloud_server.<TODO>.id

  firewall_rule {
    direction = "in"
    action    = "accept"
    family    = "IPv4"
    protocol  = "tcp"
    destination_port_start = "80"
    destination_port_end   = "80"
  }

  firewall_rule {
    direction = "out"
    action    = "accept"
    family    = "IPv4"
    comment   = "Allow all outbound"
  }
}
"#,
            ),
            None,
        );

        let nsg_assoc = MigrationResult {
            resource_type: "azurerm_subnet_network_security_group_association".to_string(),
            resource_name: "web_assoc".to_string(),
            source_file: "test.tf".to_string(),
            status: MigrationStatus::Native,
            upcloud_type: "(consumed by firewall resolution)".into(),
            upcloud_hcl: None,
            snippet: None,
            parent_resource: None,
            notes: vec![],
            source_hcl: Some(
                r#"resource "azurerm_subnet_network_security_group_association" "web_assoc" {
  subnet_id                 = azurerm_subnet.web.id
  network_security_group_id = azurerm_network_security_group.web_nsg.id
}"#
                .to_string(),
            ),
        };

        let nic = MigrationResult {
            resource_type: "azurerm_network_interface".to_string(),
            resource_name: "web_nic".to_string(),
            source_file: "test.tf".to_string(),
            status: MigrationStatus::Partial,
            upcloud_type: "network_interface block in upcloud_server".into(),
            upcloud_hcl: None,
            snippet: None,
            parent_resource: None,
            notes: vec![],
            source_hcl: Some(
                r#"resource "azurerm_network_interface" "web_nic" {
  name = "web-nic"
  ip_configuration {
    subnet_id = azurerm_subnet.web.id
  }
}"#
                .to_string(),
            ),
        };

        let mut server = make_result(
            "azurerm_linux_virtual_machine",
            "web",
            "upcloud_server",
            Some(
                r#"resource "upcloud_server" "web" {
  hostname = "web"
  zone     = "__ZONE__"
  plan     = "2xCPU-4GB"
}
"#,
            ),
            None,
        );
        server.source_hcl = Some(
            r#"resource "azurerm_linux_virtual_machine" "web" {
  name                  = "web"
  size                  = "Standard_B2s"
  network_interface_ids = [azurerm_network_interface.web_nic.id]
}"#
            .to_string(),
        );

        let subnet = make_result(
            "azurerm_subnet",
            "web",
            "upcloud_network",
            Some(
                r#"resource "upcloud_network" "web" {
  name = "web"
  zone = "__ZONE__"
  ip_network {
    address = "10.0.1.0/24"
    dhcp    = true
    family  = "IPv4"
  }
}
"#,
            ),
            None,
        );

        let output = run_generate(
            &[nsg, nsg_assoc, nic, server, subnet],
            "azure_nsg_chain",
        );

        // The NSG should resolve to the web server via the chain:
        // NSG 'web_nsg' → association links subnet 'web' ↔ NSG 'web_nsg'
        // NIC 'web_nic' → subnet 'web'
        // VM 'web' → NIC 'web_nic'
        // Therefore: NSG 'web_nsg' covers server 'web'
        assert!(
            output.contains("upcloud_server.web.id"),
            "NSG server_id must resolve to 'web' via subnet-association + NIC chain\n{output}"
        );
        assert!(
            !output.contains("upcloud_server.<TODO>.id"),
            "no unresolved TODO must remain for web NSG\n{output}"
        );
    }

    #[test]
    fn backend_member_ip_ref_for_counted_server_uses_zero_index() {
        let server = make_result(
            "aws_instance",
            "web",
            "upcloud_server",
            Some(
                r#"resource "upcloud_server" "web" {
  count    = 2
  hostname = "web-${count.index + 1}"
  zone     = "__ZONE__"
  plan     = "1xCPU-1GB"

  template {
    storage = "Ubuntu Server 24.04 LTS (Noble Numbat)"
    size    = 50
  }

  network_interface {
    type = "public"
  }
}
"#,
            ),
            None,
        );
        let backend = make_result(
            "aws_lb_target_group",
            "web",
            "upcloud_loadbalancer_backend",
            Some(
                r#"resource "upcloud_loadbalancer_backend" "web" {
  loadbalancer = upcloud_loadbalancer.<TODO>.id
  name         = "web"

  properties {
    health_check_type = "http"
  }
}

resource "upcloud_loadbalancer_static_backend_member" "web_member" {
  backend      = upcloud_loadbalancer_backend.web.id
  name         = "web-member"
  weight       = 100
  max_sessions = 1000
  enabled      = true
  ip           = "<TODO: server IP>"
  port         = 80
}
"#,
            ),
            None,
        );
        let output = run_generate(&[server, backend], "backend_counted_srv");
        assert!(
            output.contains("upcloud_server.web[0].network_interface[0].ip_address"),
            "backend member ip should use [0] for counted server\n{output}"
        );
        assert!(
            !output.contains("upcloud_server.web.network_interface"),
            "should not reference non-indexed counted server\n{output}"
        );
    }

    #[test]
    fn counted_network_ref_in_counted_server_uses_count_index() {
        let network = make_result(
            "aws_subnet",
            "public",
            "upcloud_network",
            Some(
                r#"resource "upcloud_network" "public" {
  count = 2
  name  = "public-${count.index + 1}"
  zone  = "__ZONE__"

  ip_network {
    address = "10.0.${count.index + 1}.0/24"
    dhcp    = true
    family  = "IPv4"
  }
}
"#,
            ),
            None,
        );
        let server = make_result(
            "aws_instance",
            "web",
            "upcloud_server",
            Some(
                r#"resource "upcloud_server" "web" {
  count    = 2
  hostname = "web-${count.index + 1}"
  zone     = "__ZONE__"
  plan     = "1xCPU-1GB"

  template {
    storage = "Ubuntu Server 24.04 LTS (Noble Numbat)"
    size    = 50
  }

  network_interface {
    type = "public"
  }

  network_interface {
    type    = "private"
    network = "<TODO: upcloud_network reference>"
  }
}
"#,
            ),
            None,
        );
        let output = run_generate(&[network, server], "counted_net_counted_srv");
        assert!(
            output.contains("upcloud_network.public[count.index].id"),
            "counted server + counted network should use [count.index]\n{output}"
        );
    }

    #[test]
    fn counted_network_ref_in_uncounted_server_uses_zero_index() {
        let network = make_result(
            "aws_subnet",
            "public",
            "upcloud_network",
            Some(
                r#"resource "upcloud_network" "public" {
  count = 2
  name  = "public-${count.index + 1}"
  zone  = "__ZONE__"

  ip_network {
    address = "10.0.${count.index + 1}.0/24"
    dhcp    = true
    family  = "IPv4"
  }
}
"#,
            ),
            None,
        );
        let server = make_result(
            "aws_instance",
            "database",
            "upcloud_server",
            Some(
                r#"resource "upcloud_server" "database" {
  hostname = "database"
  zone     = "__ZONE__"
  plan     = "1xCPU-2GB"

  template {
    storage = "Ubuntu Server 24.04 LTS (Noble Numbat)"
    size    = 50
  }

  network_interface {
    type = "public"
  }

  network_interface {
    type    = "private"
    network = "<TODO: upcloud_network reference>"
  }
}
"#,
            ),
            None,
        );
        let output = run_generate(&[network, server], "counted_net_uncounted_srv");
        assert!(
            output.contains("upcloud_network.public[0].id"),
            "non-counted server + counted network should use [0]\n{output}"
        );
    }

    #[test]
    fn db_subnet_group_resolves_to_correct_network() {
        // Setup: two networks (public_a comes first alphabetically/order), data comes second.
        // Both postgres and valkey reference subnet group "main" which lists aws_subnet.data.
        // The generator must resolve their network UUIDs to upcloud_network.data, NOT public_a.

        let mut pg = make_result(
            "aws_db_instance",
            "postgres",
            "upcloud_managed_database_postgresql",
            Some("resource \"upcloud_managed_database_postgresql\" \"postgres\" {\n  name = \"postgres-db\"\n  plan = \"1x2xCPU-4GB-50GB\"\n  zone = \"__ZONE__\"\n  network {\n    family = \"IPv4\"\n    type   = \"private\"\n    uuid   = \"<TODO: upcloud_network UUID subnet_group=main>\"\n  }\n}\n"),
            None,
        );
        pg.source_hcl = Some(
            "resource \"aws_db_instance\" \"postgres\" {\n  db_subnet_group_name = aws_db_subnet_group.main.name\n}\n"
                .to_string(),
        );

        let mut valkey = make_result(
            "aws_elasticache_cluster",
            "redis",
            "upcloud_managed_database_valkey",
            Some("resource \"upcloud_managed_database_valkey\" \"redis\" {\n  name = \"redis-cache\"\n  plan = \"1x1xCPU-2GB\"\n  zone = \"__ZONE__\"\n  network {\n    family = \"IPv4\"\n    type   = \"private\"\n    uuid   = \"<TODO: upcloud_network UUID subnet_group=main>\"\n  }\n}\n"),
            None,
        );
        valkey.source_hcl = Some(
            "resource \"aws_elasticache_cluster\" \"redis\" {\n  subnet_group_name = aws_elasticache_subnet_group.main.name\n}\n"
                .to_string(),
        );

        // aws_db_subnet_group "main" with source HCL listing aws_subnet.data
        let mut sg = make_result(
            "aws_db_subnet_group",
            "main",
            "(subnet group → network block)",
            None,
            None,
        );
        sg.source_hcl = Some(
            "resource \"aws_db_subnet_group\" \"main\" {\n  subnet_ids = [aws_subnet.data.id]\n}\n"
                .to_string(),
        );

        // aws_elasticache_subnet_group "main" referencing same subnet
        let mut cache_sg = make_result(
            "aws_elasticache_subnet_group",
            "main",
            "(subnet group → network block)",
            None,
            None,
        );
        cache_sg.source_hcl = Some(
            "resource \"aws_elasticache_subnet_group\" \"main\" {\n  subnet_ids = [aws_subnet.data.id]\n}\n"
                .to_string(),
        );

        // Networks: public_a first (would be picked by generic fallback), data second.
        let public_a = make_result(
            "aws_subnet",
            "public_a",
            "upcloud_network",
            Some("resource \"upcloud_network\" \"public_a\" {\n  zone = \"__ZONE__\"\n}\n"),
            None,
        );
        let data = make_result(
            "aws_subnet",
            "data",
            "upcloud_network",
            Some("resource \"upcloud_network\" \"data\" {\n  zone = \"__ZONE__\"\n}\n"),
            None,
        );

        let output = run_generate(
            &[pg, valkey, sg, cache_sg, public_a, data],
            "db_subnet_group",
        );

        assert!(
            output.contains("uuid   = upcloud_network.data.id"),
            "postgres network uuid must resolve to upcloud_network.data (not public_a)\n{output}"
        );
        assert!(
            !output.contains("upcloud_network.public_a.id"),
            "public_a must not appear in database network uuid when data subnet is known\n{output}"
        );
        assert!(
            !output.contains("subnet_group="),
            "all subnet_group placeholders must be resolved\n{output}"
        );
    }

    #[test]
    fn firewall_rule_with_unresolved_server_is_emitted_with_todo() {
        // aws_security_group "lb" → upcloud_firewall_rules "lb", but there is no
        // upcloud_server named "lb". The rule must still be emitted (with a TODO
        // server_id) so users can see and manually complete the assignment.
        let lb_fw = make_result(
            "aws_security_group",
            "lb",
            "upcloud_firewall_rules",
            Some(
                "resource \"upcloud_firewall_rules\" \"lb\" {\n  \
                 server_id = upcloud_server.<TODO>.id\n}\n",
            ),
            None,
        );
        let web = make_result(
            "aws_instance",
            "web",
            "upcloud_server",
            Some(
                "resource \"upcloud_server\" \"web\" {\n  \
                 hostname = \"web\"\n  zone = \"__ZONE__\"\n  plan = \"1xCPU-1GB\"\n}\n",
            ),
            None,
        );
        let app = make_result(
            "aws_instance",
            "app",
            "upcloud_server",
            Some(
                "resource \"upcloud_server\" \"app\" {\n  \
                 hostname = \"app\"\n  zone = \"__ZONE__\"\n  plan = \"1xCPU-1GB\"\n}\n",
            ),
            None,
        );
        let output = run_generate(&[lb_fw, web, app], "fw_lb_emit");
        // Unresolved firewall rules are emitted with a TODO so the user can assign them.
        assert!(
            output.contains("upcloud_firewall_rules\" \"lb\""),
            "unresolved firewall rule must be present in output\n{output}"
        );
        assert!(
            output.contains("upcloud_server.<TODO>.id"),
            "unresolved server_id TODO must appear in output\n{output}"
        );
        // The server resources must still be present
        assert!(output.contains("upcloud_server\" \"web\""), "{output}");
        assert!(output.contains("upcloud_server\" \"app\""), "{output}");
    }

    #[test]
    fn lb_private_network_block_prefers_private_named_network_over_public() {
        // Regression: when networks are ordered [public_a, private_a], the generic
        // "<TODO: upcloud_network reference>" fallback was picking public_a because
        // it was first. The LB's `type = "private"` block must use the private network.
        let public_net = make_result(
            "aws_subnet",
            "public_a",
            "upcloud_network",
            Some(
                r#"resource "upcloud_network" "public_a" {
  zone = "__ZONE__"
  name = "public-a"

  ip_network {
    address = "10.0.1.0/24"
    dhcp    = true
    family  = "IPv4"
  }
}
"#,
            ),
            None,
        );
        let private_net = make_result(
            "aws_subnet",
            "private_a",
            "upcloud_network",
            Some(
                r#"resource "upcloud_network" "private_a" {
  zone = "__ZONE__"
  name = "private-a"

  ip_network {
    address = "10.0.2.0/24"
    dhcp    = true
    family  = "IPv4"
  }
}
"#,
            ),
            None,
        );
        let lb = make_result(
            "aws_lb",
            "main",
            "upcloud_loadbalancer",
            Some(
                r#"resource "upcloud_loadbalancer" "main" {
  name              = "main"
  plan              = "development"
  zone              = "__ZONE__"
  configured_status = "started"

  networks {
    name    = "private"
    type    = "private"
    family  = "IPv4"
    network = "<TODO: upcloud_network reference>"
  }

  networks {
    name   = "public"
    type   = "public"
    family = "IPv4"
  }
}
"#,
            ),
            None,
        );

        // public_a comes first in the slice — it would have been picked by the old logic
        let output = run_generate(&[public_net, private_net, lb], "lb_private_net_preference");

        assert!(
            output.contains("upcloud_network.private_a.id"),
            "LB private network block must resolve to private_a, not public_a\n{output}"
        );
        assert!(
            !output.contains("network = upcloud_network.public_a.id"),
            "LB private network block must NOT reference public_a\n{output}"
        );
    }

    #[test]
    fn lb_private_network_resolved_deterministically_via_backend_chain() {
        // Regression: with `public_a` ordered first AND named "public_a", the heuristic
        // could not resolve correctly because the actual backends live in public_a.
        // The deterministic chain (listener → attachment → instance → subnet) must win.
        //
        // Chain: aws_lb.main → listener (TG=web) → attachment (web[0] → public_a) →
        //        aws_instance.web (subnet_id = aws_subnet.public_a) → upcloud_network.public_a
        let public_net = make_result(
            "aws_subnet",
            "public_a",
            "upcloud_network",
            Some(
                r#"resource "upcloud_network" "public_a" {
  zone = "__ZONE__"
  name = "public-a"
  ip_network { address = "10.0.1.0/24" dhcp = true family = "IPv4" }
}
"#,
            ),
            None,
        );
        let private_net = make_result(
            "aws_subnet",
            "private_a",
            "upcloud_network",
            Some(
                r#"resource "upcloud_network" "private_a" {
  zone = "__ZONE__"
  name = "private-a"
  ip_network { address = "10.0.2.0/24" dhcp = true family = "IPv4" }
}
"#,
            ),
            None,
        );

        // aws_instance.web lives in public_a
        let mut instance = make_result(
            "aws_instance",
            "web",
            "upcloud_server",
            Some(
                r#"resource "upcloud_server" "web" {
  hostname = "web"
  zone     = "__ZONE__"
  plan     = "1xCPU-1GB"
  template { storage = "Ubuntu Server 24.04 LTS (Noble Numbat)" size = 50 }
}
"#,
            ),
            None,
        );
        instance.source_hcl = Some(
            r#"resource "aws_instance" "web" {
  ami           = "ami-12345"
  instance_type = "t3.micro"
  subnet_id     = aws_subnet.public_a.id
}
"#
            .to_string(),
        );

        // aws_lb_target_group_attachment: TG=web, server=web[0]
        let mut attachment = make_result(
            "aws_lb_target_group_attachment",
            "web_1",
            "upcloud_loadbalancer_static_backend_member",
            Some(
                r#"resource "upcloud_loadbalancer_static_backend_member" "web_1" {
  backend      = upcloud_loadbalancer_backend.<TODO>.name
  name         = "web-1"
  ip           = "<TODO: server IP>"
  port         = 80
  weight       = 100
  max_sessions = 1000
}
"#,
            ),
            None,
        );
        attachment.source_hcl = Some(
            r#"resource "aws_lb_target_group_attachment" "web_1" {
  target_group_arn = aws_lb_target_group.web.arn
  target_id        = aws_instance.web[0].id
  port             = 80
}
"#
            .to_string(),
        );

        // aws_lb_listener: lb=main, TG=web
        let mut listener = make_result(
            "aws_lb_listener",
            "https",
            "upcloud_loadbalancer_frontend",
            Some(
                r#"resource "upcloud_loadbalancer_frontend" "https" {
  name             = "https"
  mode             = "tcp"
  port             = 443
  loadbalancer     = upcloud_loadbalancer.<TODO>.id
  default_backend_name = upcloud_loadbalancer_backend.<TODO>.name
}
"#,
            ),
            None,
        );
        listener.source_hcl = Some(
            r#"resource "aws_lb_listener" "https" {
  load_balancer_arn = aws_lb.main.arn
  port              = "443"
  protocol          = "HTTPS"
  default_action {
    type             = "forward"
    target_group_arn = aws_lb_target_group.web.arn
  }
}
"#
            .to_string(),
        );

        // aws_lb.main: has the generic network placeholder
        let lb = make_result(
            "aws_lb",
            "main",
            "upcloud_loadbalancer",
            Some(
                r#"resource "upcloud_loadbalancer" "main" {
  name              = "main"
  plan              = "development"
  zone              = "__ZONE__"
  configured_status = "started"
  networks {
    name    = "private"
    type    = "private"
    family  = "IPv4"
    network = "<TODO: upcloud_network reference>"
  }
  networks {
    name   = "public"
    type   = "public"
    family = "IPv4"
  }
}
"#,
            ),
            None,
        );

        // public_a is ordered first (and is named "public_a") — heuristic would pick private_a,
        // but the deterministic chain shows the backends are actually in public_a.
        let output = run_generate(
            &[public_net, private_net, instance, attachment, listener, lb],
            "lb_deterministic_chain",
        );

        assert!(
            output.contains("upcloud_network.public_a.id"),
            "LB private network block must resolve to public_a via backend chain\n{output}"
        );
        assert!(
            !output.contains("upcloud_network.private_a.id"),
            "LB must NOT reference private_a when backends are in public_a\n{output}"
        );
    }

    #[test]
    fn login_key_ternary_expression_is_not_mangled() {
        // Snippet uses unquoted HCL expression (the fixed map_key_pair format).
        // generate_files must extract the expression and replace the quoted TODO
        // placeholder including its surrounding quotes, producing keys = [expr].
        let key_pair = make_result(
            "aws_key_pair",
            "main",
            "login block (server resource)",
            None,
            Some(
                r#"login {
  user = "root"
  keys = [var.ssh_public_key != "" ? var.ssh_public_key : "ssh-rsa PLACEHOLDER"]  # was aws_key_pair.main
}"#,
            ),
        );
        let server = make_result(
            "aws_instance",
            "web",
            "upcloud_server",
            Some(
                r#"resource "upcloud_server" "web" {
  hostname = "web"
  zone     = "__ZONE__"
  plan     = "1xCPU-1GB"

  template {
    storage = "Ubuntu Server 24.04 LTS (Noble Numbat)"
    size    = 50
  }

  network_interface {
    type = "public"
  }

  login {
    user = "root"
    keys = ["<TODO: SSH public key for aws_key_pair.main>"]
  }
}
"#,
            ),
            None,
        );
        let output = run_generate(&[key_pair, server], "ternary_login");
        assert!(
            output.contains("keys = [var.ssh_public_key"),
            "ternary expression should appear unquoted in keys\n{output}"
        );
        assert!(
            !output.contains(r#"keys = ["var.ssh_public_key"#),
            "ternary expression must not be wrapped in extra quotes\n{output}"
        );
    }

    #[test]
    fn network_lifecycle_block_injected_when_k8s_present() {
        let network = make_result(
            "aws_subnet",
            "main",
            "upcloud_network",
            Some(
                r#"resource "upcloud_network" "main" {
  name = "main"
  zone = "__ZONE__"

  ip_network {
    address = "10.0.1.0/24"
    dhcp    = true
    family  = "IPv4"
  }

  router = upcloud_router.main_router.id
}
"#,
            ),
            None,
        );
        let k8s = make_result(
            "aws_eks_cluster",
            "cluster",
            "upcloud_kubernetes_cluster",
            Some(
                r#"resource "upcloud_kubernetes_cluster" "cluster" {
  name    = "cluster"
  zone    = "__ZONE__"
  network = "<TODO: upcloud_network reference>"
  plan    = "K8S-2xCPU-4GB"
}
"#,
            ),
            None,
        );
        let output = run_generate(&[network, k8s], "lifecycle_with_k8s");
        assert!(
            output.contains("lifecycle"),
            "lifecycle block should be injected when k8s cluster is present\n{output}"
        );
        assert!(
            output.contains("ignore_changes = [router]"),
            "lifecycle block must ignore router changes\n{output}"
        );
    }

    #[test]
    fn network_lifecycle_block_not_injected_without_k8s() {
        let network = make_result(
            "aws_subnet",
            "main",
            "upcloud_network",
            Some(
                r#"resource "upcloud_network" "main" {
  name = "main"
  zone = "__ZONE__"

  ip_network {
    address = "10.0.1.0/24"
    dhcp    = true
    family  = "IPv4"
  }

  router = upcloud_router.main_router.id
}
"#,
            ),
            None,
        );
        let server = make_result(
            "aws_instance",
            "web",
            "upcloud_server",
            Some(
                r#"resource "upcloud_server" "web" {
  hostname = "web"
  zone     = "__ZONE__"
  plan     = "1xCPU-1GB"

  template {
    storage = "Ubuntu Server 24.04 LTS (Noble Numbat)"
    size    = 50
  }

  network_interface {
    type = "public"
  }
}
"#,
            ),
            None,
        );
        let output = run_generate(&[network, server], "lifecycle_without_k8s");
        assert!(
            !output.contains("lifecycle"),
            "lifecycle block must NOT be present when no k8s cluster exists\n{output}"
        );
        assert!(
            !output.contains("ignore_changes"),
            "ignore_changes must NOT be present when no k8s cluster exists\n{output}"
        );
    }

    #[test]
    fn non_cloud_providers_included_in_providers_tf() {

        let k8s_hcl = r#"resource "kubernetes_deployment_v1" "nginx" {
  metadata {
    name = "nginx"
  }
}
"#;
        let passthrough = MigrationResult {
            resource_type: "kubernetes_deployment_v1".to_string(),
            resource_name: "nginx".to_string(),
            source_file: "test.tf".to_string(),
            status: MigrationStatus::Passthrough,
            upcloud_type: "kubernetes_deployment_v1".to_string(),
            upcloud_hcl: Some(k8s_hcl.to_string()),
            snippet: None,
            parent_resource: None,
            notes: vec![],
            source_hcl: None,
        };

        let provider_pt = PassthroughBlock {
            name: Some("kubernetes".to_string()),
            raw_hcl: "provider \"kubernetes\" {\n  host = \"https://example.com\"\n}".to_string(),
            source_file: String::from("main.tf"),
            kind: PassthroughKind::Provider,
        };

        let req_provider_pt = PassthroughBlock {
            name: Some("required_provider:kubernetes".to_string()),
            raw_hcl: "kubernetes = {\n      source  = \"hashicorp/kubernetes\"\n      version = \"~> 3.0\"\n    }".to_string(),
            source_file: String::from("main.tf"),
            kind: PassthroughKind::Provider,
        };
        let out = generate(&[passthrough], &[provider_pt, req_provider_pt], "fi-hel2");
        let log = all_log(&out);
        let providers_content =
            file_content(&out, "providers.tf").expect("providers.tf must exist");

        assert!(
            providers_content.contains("upcloud"),
            "providers.tf must contain UpCloud provider\n{providers_content}"
        );
        assert!(
            providers_content.contains("kubernetes"),
            "providers.tf must contain kubernetes provider\n{providers_content}"
        );
        assert!(
            providers_content.contains("hashicorp/kubernetes"),
            "providers.tf must contain kubernetes required_provider source\n{providers_content}"
        );
    }

    #[test]
    fn non_cloud_resource_kept_as_is_in_output() {
        // A kubernetes_deployment_v1 should be passed through unchanged.
        let k8s_hcl = r#"resource "kubernetes_deployment_v1" "nginx" {
  metadata {
    name = "nginx"
  }

  spec {
    replicas = 2
    selector {
      match_labels = {
        App = "nginx"
      }
    }
    template {
      metadata {
        labels = {
          App = "nginx"
        }
      }
      spec {
        container {
          image = "nginx:stable"
          name  = "example"
        }
      }
    }
  }
}
"#;
        let passthrough = MigrationResult {
            resource_type: "kubernetes_deployment_v1".to_string(),
            resource_name: "nginx".to_string(),
            source_file: "test.tf".to_string(),
            status: MigrationStatus::Passthrough,
            upcloud_type: "kubernetes_deployment_v1".to_string(),
            upcloud_hcl: Some(k8s_hcl.to_string()),
            snippet: None,
            parent_resource: None,
            notes: vec!["Non-cloud-provider resource, kept as is.".to_string()],
            source_hcl: Some(k8s_hcl.to_string()),
        };

        let output = run_generate(&[passthrough], "passthrough_k8s");

        assert!(
            output.contains("kubernetes_deployment_v1"),
            "passthrough resource must appear in output\n{output}"
        );
        assert!(
            output.contains("replicas = 2"),
            "passthrough resource HCL must be preserved\n{output}"
        );
        assert!(
            output.contains("kept as is"),
            "passthrough resource must have 'kept as is' comment\n{output}"
        );
    }

    #[test]
    fn passthrough_not_in_migration_notes() {
        // Passthrough resources should NOT appear in MIGRATION_NOTES.md
        let k8s_hcl = r#"resource "kubernetes_deployment_v1" "nginx" {
  metadata {
    name = "nginx"
  }
}
"#;
        let passthrough = MigrationResult {
            resource_type: "kubernetes_deployment_v1".to_string(),
            resource_name: "nginx".to_string(),
            source_file: "test.tf".to_string(),
            status: MigrationStatus::Passthrough,
            upcloud_type: "kubernetes_deployment_v1".to_string(),
            upcloud_hcl: Some(k8s_hcl.to_string()),
            snippet: None,
            parent_resource: None,
            notes: vec!["Non-cloud-provider resource, kept as is.".to_string()],
            source_hcl: Some(k8s_hcl.to_string()),
        };
        let out = generate(&[passthrough], &[], "fi-hel2");
        let log = all_log(&out);
        let notes_exists = out.notes.is_some();

        // No unsupported/partial resources → no MIGRATION_NOTES.md should be generated
        assert!(
            !notes_exists,
            "MIGRATION_NOTES.md should not be generated when only passthrough resources exist"
        );
    }

    #[test]
    fn passthrough_resource_alongside_mapped_resource() {
        // When a file has both AWS resources (mapped) and non-cloud resources (passthrough),
        // both should appear in the output.
        let server = make_result(
            "aws_instance",
            "web",
            "upcloud_server",
            Some(
                r#"resource "upcloud_server" "web" {
  hostname = "web"
  zone     = "__ZONE__"
  plan     = "1xCPU-1GB"

  template {
    storage = "Ubuntu Server 24.04 LTS (Noble Numbat)"
    size    = 25
  }

  network_interface {
    type = "public"
  }
}
"#,
            ),
            None,
        );

        let k8s_hcl = r#"resource "kubernetes_deployment_v1" "app" {
  metadata {
    name = "app"
  }

  spec {
    replicas = 1
  }
}
"#;
        let passthrough = MigrationResult {
            resource_type: "kubernetes_deployment_v1".to_string(),
            resource_name: "app".to_string(),
            source_file: "test.tf".to_string(),
            status: MigrationStatus::Passthrough,
            upcloud_type: "kubernetes_deployment_v1".to_string(),
            upcloud_hcl: Some(k8s_hcl.to_string()),
            snippet: None,
            parent_resource: None,
            notes: vec!["Non-cloud-provider resource, kept as is.".to_string()],
            source_hcl: Some(k8s_hcl.to_string()),
        };

        let output = run_generate(&[server, passthrough], "passthrough_mixed");

        // Both should be present
        assert!(
            output.contains("upcloud_server"),
            "mapped resource must appear in output\n{output}"
        );
        assert!(
            output.contains("kubernetes_deployment_v1"),
            "passthrough resource must appear in output\n{output}"
        );
    }

    #[test]
    fn passthrough_with_cloud_refs_are_rewritten() {
        // If a non-cloud resource references an AWS resource, the reference
        // should be rewritten to the UpCloud equivalent.
        let k8s_hcl = r#"resource "kubernetes_config_map" "cluster_info" {
  metadata {
    name = "cluster-info"
  }

  data = {
    endpoint = aws_eks_cluster.main.endpoint
  }
}
"#;
        let passthrough = MigrationResult {
            resource_type: "kubernetes_config_map".to_string(),
            resource_name: "cluster_info".to_string(),
            source_file: "test.tf".to_string(),
            status: MigrationStatus::Passthrough,
            upcloud_type: "kubernetes_config_map".to_string(),
            upcloud_hcl: Some(k8s_hcl.to_string()),
            snippet: None,
            parent_resource: None,
            notes: vec!["Non-cloud-provider resource, kept as is.".to_string()],
            source_hcl: Some(k8s_hcl.to_string()),
        };

        let output = run_generate(&[passthrough], "passthrough_rewrite_refs");

        assert!(
            !output.contains("aws_eks_cluster"),
            "AWS references in passthrough resources should be rewritten\n{output}"
        );
        assert!(
            output.contains("upcloud_kubernetes_cluster"),
            "AWS references should be rewritten to UpCloud equivalents\n{output}"
        );
    }

    #[test]
    fn subnet_group_resolution_uses_index_for_counted_network() {
        // When the target network has count=2, the DB network uuid must use [0].
        let pg = make_result(
            "aws_db_instance",
            "main",
            "upcloud_managed_database_postgresql",
            Some(
                "resource \"upcloud_managed_database_postgresql\" \"main\" {\n  \
                  network {\n    uuid = \"<TODO: upcloud_network UUID subnet_group=main>\"\n  }\n}\n",
            ),
            None,
        );
        // Subnet group "main" maps to subnet "database"
        let sg_result = make_result(
            "aws_db_subnet_group",
            "main",
            "upcloud_db_subnet_group_placeholder",
            None,
            None,
        );
        // Network "database" has count (2 instances) — note count in HCL
        let db_net = make_result(
            "aws_subnet",
            "database",
            "upcloud_network",
            Some(
                "resource \"upcloud_network\" \"database\" {\n  count = 2\n  zone = \"__ZONE__\"\n}\n",
            ),
            None,
        );

        let mut results = vec![pg, db_net];
        // Add a fake subnet_group result so source_hcl maps it
        let mut sg_with_hcl = sg_result;
        sg_with_hcl.source_hcl = Some(
            r#"resource "aws_db_subnet_group" "main" {
  subnet_ids = [aws_subnet.database[0].id, aws_subnet.database[1].id]
}"#
            .to_string(),
        );
        results.push(sg_with_hcl);
        let out = generate(&results, &[], "fi-hel1");
        let log = all_log(&out);
        let output = file_content(&out, "test.tf").unwrap_or_default();

        assert!(
            output.contains("upcloud_network.database[0].id"),
            "counted database network must be indexed with [0]\n{output}\nlog: {:?}",
            log
        );
    }

    #[test]
    fn two_sgs_targeting_same_server_produce_one_firewall_resource() {
        // Two security groups (web_sg, db_sg) both attached to server "app".
        // Both have vpc_security_group_ids resolved via source HCL on the instance.
        // The generator must emit exactly ONE upcloud_firewall_rules resource containing
        // all rules, not two conflicting resources.
        let fw_web = make_result(
            "aws_security_group",
            "web_sg",
            "upcloud_firewall_rules",
            Some(
                "resource \"upcloud_firewall_rules\" \"web_sg\" {\n  \
                 server_id = upcloud_server.<TODO>.id\n\n  \
                 firewall_rule {\n    direction = \"in\"\n    action    = \"accept\"\n    \
                 family    = \"IPv4\"\n    protocol  = \"tcp\"\n    \
                 destination_port_start = \"80\"\n    destination_port_end   = \"80\"\n  }\n\n  \
                 firewall_rule {\n    direction = \"out\"\n    action    = \"accept\"\n    \
                 family    = \"IPv4\"\n    comment   = \"Allow all outbound\"\n  }\n}\n",
            ),
            None,
        );
        let fw_db = make_result(
            "aws_security_group",
            "db_sg",
            "upcloud_firewall_rules",
            Some(
                "resource \"upcloud_firewall_rules\" \"db_sg\" {\n  \
                 server_id = upcloud_server.<TODO>.id\n\n  \
                 firewall_rule {\n    direction = \"in\"\n    action    = \"accept\"\n    \
                 family    = \"IPv4\"\n    protocol  = \"tcp\"\n    \
                 destination_port_start = \"5432\"\n    destination_port_end   = \"5432\"\n  }\n\n  \
                 firewall_rule {\n    direction = \"out\"\n    action    = \"accept\"\n    \
                 family    = \"IPv4\"\n    comment   = \"Allow all outbound\"\n  }\n}\n",
            ),
            None,
        );
        // Server "app" with vpc_security_group_ids referencing both SGs.
        let mut server = make_result(
            "aws_instance",
            "app",
            "upcloud_server",
            Some(
                "resource \"upcloud_server\" \"app\" {\n  hostname = \"app\"\n  \
                 zone = \"fi-hel2\"\n  plan = \"2xCPU-4GB\"\n}\n",
            ),
            None,
        );
        // Attach both SGs to the server via source_hcl (simulates vpc_security_group_ids).
        server.source_hcl = Some(
            "resource \"aws_instance\" \"app\" {\n  \
             vpc_security_group_ids = [aws_security_group.web_sg.id, aws_security_group.db_sg.id]\n}\n"
                .to_string(),
        );

        let output = run_generate(&[fw_web, fw_db, server], "multi_sg");

        // Must have exactly one upcloud_firewall_rules resource.
        let fw_count = output
            .matches("resource \"upcloud_firewall_rules\"")
            .count();
        assert_eq!(
            fw_count, 1,
            "must have exactly 1 upcloud_firewall_rules resource\n{output}"
        );

        // Must contain rules from BOTH security groups.
        assert!(
            output.contains("destination_port_start = \"80\""),
            "must contain web_sg port-80 rule\n{output}"
        );
        assert!(
            output.contains("destination_port_start = \"5432\""),
            "must contain db_sg port-5432 rule\n{output}"
        );

        // Catch-all outbound rule must appear only once (deduplicated).
        let outbound_count = output.matches("Allow all outbound").count();
        assert_eq!(
            outbound_count, 1,
            "catch-all outbound rule must be deduplicated\n{output}"
        );

        // server_id must be resolved (no TODO).
        assert!(
            !output.contains("<TODO>"),
            "no TODO must remain in merged firewall resource\n{output}"
        );
        assert!(
            output.contains("upcloud_server.app.id"),
            "server_id must be resolved to 'app'\n{output}"
        );
    }

    #[test]
    fn variable_block_rewritten_with_annotation() {

        // instance_type name alone scores 1 (name keyword) — below threshold.
        // But adding default "t3.micro" gives +5 → total 6 (MEDIUM confidence).
        let var_hcl = "variable \"instance_type\" {\n  default = \"t3.micro\"\n}";
        let pt = PassthroughBlock {
            name: Some("instance_type".to_string()),
            raw_hcl: var_hcl.to_string(),
            source_file: String::from("vars.tf"),
            kind: PassthroughKind::Variable,
        };
        let out = generate(&[], &[pt], "fi-hel2");
        let log = all_log(&out);
        let output = file_content(&out, "vars.tf").unwrap();
        // t3.micro should be rewritten to the UpCloud plan equivalent
        assert!(
            output.contains("default = \"1xCPU-1GB\""),
            "instance type default must be rewritten to UpCloud plan\n{output}"
        );
        // An AUTO-CONVERTED annotation comment must be prepended
        assert!(
            output.contains("AUTO-CONVERTED"),
            "annotation comment must be present\n{output}"
        );
        // Other parts of the variable block must be preserved
        assert!(
            output.contains("variable \"instance_type\""),
            "variable name must be preserved\n{output}"
        );
    }

    #[test]
    fn volume_attachment_injects_storage_devices_into_server() {

        let make = |rt: &str, name: &str, attrs: &[(&str, &str)]| TerraformResource {
            resource_type: rt.to_string(),
            name: name.to_string(),
            attributes: attrs
                .iter()
                .map(|(k, v)| (k.to_string(), v.to_string()))
                .collect(),
            source_file: String::from("main.tf"),
            raw_hcl: String::new(),
        };

        // web server with count
        let web_res = make(
            "aws_instance",
            "web",
            &[
                ("instance_type", "t3.micro"),
                ("count", "2"),
                ("subnet_id", "aws_subnet.private.id"),
            ],
        );
        let mut web_result = map_instance(&web_res);
        web_result.source_hcl = Some(web_result.upcloud_hcl.clone().unwrap());

        // EBS volume with count
        let vol_res = make(
            "aws_ebs_volume",
            "data",
            &[("type", "gp3"), ("size", "50"), ("count", "2")],
        );
        let vol_result = map_ebs_volume(&vol_res);

        // Attachment
        let att_res = make(
            "aws_volume_attachment",
            "data",
            &[
                ("volume_id", "aws_ebs_volume.data[count.index].id"),
                ("instance_id", "aws_instance.web[count.index].id"),
            ],
        );
        let att_result = map_volume_attachment(&att_res);
        let out = generate(&[web_result, vol_result, att_result], &[], "fi-hel1");
        let log = all_log(&out);
        let output = file_content(&out, "main.tf").unwrap_or_default();

        assert!(
            output.contains("storage_devices {"),
            "storage_devices block must be injected into server\n{output}\nlog: {:?}",
            log
        );
        assert!(
            output.contains("upcloud_storage.data[count.index].id"),
            "storage ref must use count.index\n{output}"
        );
        assert!(
            !output.contains("__STORAGE_END_"),
            "sentinel must be removed after injection\n{output}"
        );
    }

    #[test]
    fn zone_placeholder_replaced_in_output() {
        let server = make_result(
            "aws_instance",
            "web",
            "upcloud_server",
            Some(
                r#"resource "upcloud_server" "web" {
  hostname = "web"
  zone     = "__ZONE__"
  plan     = "1xCPU-1GB"

  template {
    storage = "Ubuntu Server 24.04 LTS (Noble Numbat)"
    size    = 25
  }

  network_interface {
    type = "public"
  }
}
"#,
            ),
            None,
        );
        let out = generate(&[server], &[], "pl-waw1");
        let log = all_log(&out);
        let content = file_content(&out, "test.tf")
            .expect("generate_files must produce test.tf");

        assert!(
            content.contains("zone     = \"pl-waw1\""),
            "zone placeholder must be replaced with the requested zone\n{content}"
        );
        assert!(
            !content.contains("__ZONE__"),
            "no __ZONE__ placeholders must remain in output\n{content}"
        );
        // Output must still be valid HCL regardless of zone.
        hcl::from_str::<hcl::Body>(&content).expect("output must be valid HCL");
    }
