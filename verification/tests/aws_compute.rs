use upcloud_migrate::migration::providers::aws::compute::map_autoscaling_group;
use upcloud_migrate::migration::providers::aws::compute::map_instance;
use upcloud_migrate::migration::providers::aws::compute::map_key_pair;
use upcloud_migrate::migration::providers::aws::compute::normalize_heredoc;
use upcloud_migrate::terraform::types::TerraformResource;

    fn make_res(resource_type: &str, name: &str, attrs: &[(&str, &str)]) -> TerraformResource {
        TerraformResource {
            resource_type: resource_type.to_string(),
            name: name.to_string(),
            attributes: attrs.iter().map(|(k, v)| (k.to_string(), v.to_string())).collect(),
            source_file: String::from("test.tf"),
            raw_hcl: String::new(),
        }
    }

    #[test]
    fn instance_generates_upcloud_server() {
        let res = make_res("aws_instance", "web", &[("instance_type", "t3.micro")]);
        let r = map_instance(&res);
        assert_eq!(r.upcloud_type, "upcloud_server");
        assert_eq!(r.resource_name, "web");
        let hcl = r.upcloud_hcl.unwrap();
        assert!(hcl.contains("resource \"upcloud_server\" \"web\""), "{hcl}");
        assert!(hcl.contains("plan     = \"1xCPU-1GB\""), "t3.micro should map to 1xCPU-1GB\n{hcl}");
    }

    #[test]
    fn instance_t3_medium_maps_plan() {
        let res = make_res("aws_instance", "app", &[("instance_type", "t3.medium")]);
        let r = map_instance(&res);
        assert!(r.upcloud_hcl.unwrap().contains("2xCPU-4GB"));
    }

    #[test]
    fn instance_unknown_type_uses_default_plan() {
        let res = make_res("aws_instance", "x", &[("instance_type", "x99.mega")]);
        let r = map_instance(&res);
        assert!(r.upcloud_hcl.unwrap().contains("2xCPU-4GB"));
    }

    #[test]
    fn instance_with_count_generates_count_line() {
        let res = make_res("aws_instance", "web", &[
            ("instance_type", "t3.micro"),
            ("count", "3"),
        ]);
        let r = map_instance(&res);
        let hcl = r.upcloud_hcl.unwrap();
        assert!(hcl.contains("count    = 3"), "{hcl}");
        assert!(hcl.contains("count.index"), "hostname should use count.index\n{hcl}");
    }

    #[test]
    fn instance_without_count_has_no_count_line() {
        let res = make_res("aws_instance", "solo", &[("instance_type", "t3.small")]);
        let r = map_instance(&res);
        let hcl = r.upcloud_hcl.unwrap();
        assert!(!hcl.contains("count    ="), "should not generate count line\n{hcl}");
        assert!(hcl.contains("hostname = \"solo\""), "{hcl}");
    }

    #[test]
    fn instance_with_user_data_propagates_it() {
        let script = "\"#!/bin/bash\\napt-get update\"";
        let res = make_res(
            "aws_instance",
            "web",
            &[("instance_type", "t3.micro"), ("user_data", script)],
        );
        let r = map_instance(&res);
        let hcl = r.upcloud_hcl.unwrap();
        assert!(hcl.contains("user_data ="), "user_data attribute must appear\n{hcl}");
        assert!(hcl.contains("apt-get update"), "user_data content must be present\n{hcl}");
        assert!(
            r.notes.iter().any(|n| n.contains("user_data propagated")),
            "must add a note about user_data\n{:?}", r.notes
        );
    }

    #[test]
    fn instance_without_user_data_omits_user_data_line() {
        let res = make_res("aws_instance", "web", &[("instance_type", "t3.micro")]);
        let r = map_instance(&res);
        let hcl = r.upcloud_hcl.unwrap();
        assert!(!hcl.contains("user_data"), "user_data must not appear when absent\n{hcl}");
    }

    #[test]
    fn instance_always_has_firewall_true() {
        let res = make_res("aws_instance", "web", &[("instance_type", "t3.micro")]);
        let hcl = map_instance(&res).upcloud_hcl.unwrap();
        assert!(hcl.contains("firewall = true"), "firewall must be enabled on all servers\n{hcl}");
    }

    #[test]
    fn instance_with_user_data_sets_metadata_true() {
        let res = make_res(
            "aws_instance",
            "web",
            &[("instance_type", "t3.micro"), ("user_data", "\"#!/bin/bash\"")],
        );
        let hcl = map_instance(&res).upcloud_hcl.unwrap();
        assert!(hcl.contains("metadata  = true"), "metadata must be true when user_data is present\n{hcl}");
    }

    #[test]
    fn user_data_base64encode_adds_warning_note() {
        let res = make_res(
            "aws_instance", "web",
            &[("instance_type", "t3.micro"), ("user_data", "base64encode(file(\"init.sh\"))")],
        );
        let r = map_instance(&res);
        assert!(r.notes.iter().any(|n| n.contains("base64encode")),
            "must warn about base64encode\n{:?}", r.notes);
        assert!(r.notes.iter().any(|n| n.contains("plain text")),
            "must say UpCloud expects plain text\n{:?}", r.notes);
    }

    #[test]
    fn user_data_templatefile_adds_warning_note() {
        let res = make_res(
            "aws_instance", "web",
            &[("instance_type", "t3.micro"), ("user_data", "templatefile(\"init.sh.tpl\", { region = var.region })")],
        );
        let r = map_instance(&res);
        assert!(r.notes.iter().any(|n| n.contains("templatefile")),
            "must warn about templatefile\n{:?}", r.notes);
    }

    #[test]
    fn user_data_file_ref_adds_note_about_unscanned_script() {
        let res = make_res(
            "aws_instance", "web",
            &[("instance_type", "t3.micro"), ("user_data", "file(\"${path.module}/init.sh\")")],
        );
        let r = map_instance(&res);
        assert!(r.notes.iter().any(|n| n.contains("external file") && n.contains("not scanned")),
            "must warn that external file is not scanned\n{:?}", r.notes);
    }

    #[test]
    fn instance_without_user_data_omits_metadata() {
        let res = make_res("aws_instance", "web", &[("instance_type", "t3.micro")]);
        let hcl = map_instance(&res).upcloud_hcl.unwrap();
        assert!(!hcl.contains("metadata"), "metadata must not appear when user_data is absent\n{hcl}");
    }

    #[test]
    fn instance_with_key_name_generates_ssh_key_todo() {
        let res = make_res("aws_instance", "web", &[
            ("instance_type", "t3.micro"),
            ("key_name", "aws_key_pair.prod.key_name"),
        ]);
        let r = map_instance(&res);
        let hcl = r.upcloud_hcl.unwrap();
        assert!(
            hcl.contains("<TODO: SSH public key for aws_key_pair.prod>"),
            "{hcl}"
        );
    }

    #[test]
    fn instance_without_key_name_generates_generic_ssh_todo() {
        let res = make_res("aws_instance", "web", &[("instance_type", "t3.micro")]);
        let r = map_instance(&res);
        assert!(r.upcloud_hcl.unwrap().contains("<TODO: paste SSH public key>"));
    }

    #[test]
    fn heredoc_indented_content_gets_stripped_to_col0() {
        // Simulates what hcl-rs outputs for a <<-EOF with indented content
        // but a closing marker at col 0.  New behaviour: strip the content to
        // col 0 and put the closing marker at col 0 so bash receives clean
        // col-0 content directly (no reliance on HCL's stripping).
        let input = "<<-EOF\n          #!/bin/bash\n          cat > /x <<'HTML'\n          hello\n          HTML\n          echo done\nEOF";
        let out = normalize_heredoc(input);
        // Closing marker must be at col 0.
        assert!(out.ends_with("\nEOF"), "closing marker must be at col 0\n{out}");
        // Content must be stripped to col 0.
        assert!(out.contains("\n#!/bin/bash"), "{out}");
        // Inner bash heredoc closer must also be at col 0 so bash recognises it.
        assert!(out.contains("\nHTML\n"), "{out}");
    }

    #[test]
    fn heredoc_col0_ascii_art_does_not_block_stripping() {
        // When embedded HTML content contains ASCII-art lines at col 0 (no
        // leading whitespace), those lines must NOT pull min_indent down to 0
        // and prevent the bash-command lines from being stripped.
        // Mirrors the real-world user_data that has <<'HTML'>...ASCII art...HTML.
        let input = "<<-EOF\n          #!/bin/bash\n          cat > /x <<'HTML'\n / _ \\ | |    |  ___|  /  __ \\\n/ /_\\ \\| | /\\ | |_ ___ | /  \\/\n|  _  || |/ / |  _/ __|| |    \n          HTML\n          echo done\nEOF";
        let out = normalize_heredoc(input);
        // Bash commands must be at col 0 after stripping.
        assert!(out.contains("\n#!/bin/bash\n"), "shebang must be at col 0\n{out}");
        // Inner bash heredoc closer must be at col 0.
        assert!(out.contains("\nHTML\n"), "HTML terminator must be at col 0\n{out}");
        // ASCII art lines (which were at col 0 in input) must remain intact.
        assert!(out.contains("/ _ \\"), "ASCII art must be preserved\n{out}");
        // Closing marker must be at col 0.
        assert!(out.ends_with("\nEOF"), "closing marker must be at col 0\n{out}");
    }

    #[test]
    fn heredoc_already_normalised_is_unchanged() {
        let input = "<<-EOF\n#!/bin/bash\nHTML\nEOF";
        let out = normalize_heredoc(input);
        assert_eq!(out, input);
    }

    #[test]
    fn non_heredoc_value_is_unchanged() {
        let input = "\"#!/bin/bash\\napt-get install nginx\"";
        let out = normalize_heredoc(input);
        assert_eq!(out, input);
    }

    #[test]
    fn no_dash_heredoc_with_indented_content_is_upgraded_to_strip_form() {
        // Mirrors exactly what hcl-rs returns for a <<EOF with indented content.
        let input = "<<EOF\n          #!/bin/bash\n          cat > /x <<'HTML'\n          hello\n          HTML\n          echo done\nEOF";
        let out = normalize_heredoc(input);
        // Must be upgraded to <<-EOF.
        assert!(out.starts_with("<<-EOF"), "must be upgraded to <<-EOF\n{out}");
        // Closing marker must be at col 0.
        assert!(out.ends_with("\nEOF"), "closing marker must be at col 0\n{out}");
        // Content must be stripped to col 0.
        assert!(out.contains("\n#!/bin/bash"), "{out}");
        assert!(out.contains("\nHTML\n"), "{out}");
    }

    #[test]
    fn no_dash_heredoc_no_indentation_is_unchanged() {
        // <<EOF with content at col 0 is already correct.
        let input = "<<EOF\n#!/bin/bash\napt-get update\nEOF";
        let out = normalize_heredoc(input);
        assert_eq!(out, input);
    }

    #[test]
    fn heredoc_user_data_in_generated_hcl_strips_content_to_col0() {
        // End-to-end: when the attribute value is a <<-EOF with indented content
        // and misaligned closing marker, the generated HCL must have content
        // stripped to col 0 so cloud-init receives a working bash script.
        let user_data_val = "<<-EOF\n          #!/bin/bash\n          apt-get install -y nginx\nEOF";
        let res = make_res(
            "aws_instance",
            "web",
            &[("instance_type", "t3.micro"), ("user_data", user_data_val)],
        );
        let hcl = map_instance(&res).upcloud_hcl.unwrap();
        // Content must be stripped to col 0.
        assert!(
            hcl.contains("#!/bin/bash"),
            "shebang must be present\n{hcl}"
        );
        // Closing EOF must NOT be indented.
        assert!(
            !hcl.contains("          EOF"),
            "closing EOF must not be indented — content is already at col 0\n{hcl}"
        );
    }

    #[test]
    fn heredoc_tab_indented_content_gets_stripped_to_col0() {
        // Tab-indented heredocs (the original bug: trim_start_matches(' ')
        // returned 0 for tab-indented lines, leaving min_indent = 0 and the
        // function returning unchanged with broken cloud-init output).
        let input = "<<-EOF\n\t#!/bin/bash\n\tapt-get install -y nginx\nEOF";
        let out = normalize_heredoc(input);
        // Content must be stripped to col 0.
        assert!(out.contains("\n#!/bin/bash"), "tab must be stripped\n{out}");
        assert!(out.contains("\napt-get"), "tab must be stripped\n{out}");
        // Closing marker at col 0.
        assert!(out.ends_with("\nEOF"), "closing marker must be at col 0\n{out}");
    }

    #[test]
    fn instance_private_network_interface_has_network_todo() {
        let res = make_res("aws_instance", "web", &[("instance_type", "t3.micro")]);
        let r = map_instance(&res);
        let hcl = r.upcloud_hcl.unwrap();
        assert!(
            hcl.contains("type    = \"private\""),
            "should have private interface\n{hcl}"
        );
        assert!(
            hcl.contains("<TODO: upcloud_network reference>"),
            "private interface should have network TODO\n{hcl}"
        );
    }

    #[test]
    fn key_pair_with_public_key_puts_key_in_snippet() {
        let res = make_res("aws_key_pair", "prod", &[("public_key", "ssh-rsa AAAAB3 user@host")]);
        let r = map_key_pair(&res);
        let snippet = r.snippet.unwrap();
        assert!(snippet.contains("ssh-rsa AAAAB3"), "{snippet}");
        assert!(!snippet.contains("<TODO"), "should not have TODO when key is provided\n{snippet}");
    }

    #[test]
    fn key_pair_without_public_key_has_todo_in_snippet() {
        let res = make_res("aws_key_pair", "staging", &[]);
        let r = map_key_pair(&res);
        let snippet = r.snippet.unwrap();
        assert!(snippet.contains("<TODO: paste SSH public key>"), "{snippet}");
    }

    #[test]
    fn key_pair_with_ternary_expression_produces_unquoted_snippet() {
        // A ternary like `var.x != "" ? var.x : "placeholder"` must NOT be wrapped in
        // extra quotes — it's a HCL expression, not a string literal.
        let res = make_res(
            "aws_key_pair",
            "main",
            &[("public_key", r#"var.ssh_public_key != "" ? var.ssh_public_key : "ssh-rsa PLACEHOLDER""#)],
        );
        let r = map_key_pair(&res);
        let snippet = r.snippet.unwrap();
        assert!(
            snippet.contains("keys = [var.ssh_public_key"),
            "expression key should not be wrapped in quotes\n{snippet}"
        );
        assert!(
            !snippet.contains(r#"keys = ["var.ssh_public_key"#),
            "expression must not have extra outer quotes\n{snippet}"
        );
        // The closing `"` on the ternary else-branch string must not be stripped.
        assert!(
            snippet.contains(r#": "ssh-rsa PLACEHOLDER"]"#),
            "closing quote of ternary else-branch must be intact\n{snippet}"
        );
    }

    #[test]
    fn key_pair_has_no_standalone_hcl() {
        let res = make_res("aws_key_pair", "k", &[]);
        let r = map_key_pair(&res);
        assert!(r.upcloud_hcl.is_none(), "key pairs have no standalone UpCloud resource");
    }

    #[test]
    fn autoscaling_group_is_unsupported() {
        let res = make_res("aws_autoscaling_group", "asg", &[]);
        let r = map_autoscaling_group(&res);
        assert_eq!(r.status, upcloud_migrate::migration::types::MigrationStatus::Unsupported);
        assert!(r.upcloud_hcl.is_none());
    }
