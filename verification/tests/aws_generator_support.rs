use upcloud_migrate::migration::generator::remove_todo_interpolations;
use upcloud_migrate::migration::providers::aws::generator_support::extract_sg_refs_from_instance_hcl;

    #[test]
    fn extract_sg_refs_finds_security_groups() {
        let hcl = "resource \"aws_instance\" \"docker_server\" {\n  vpc_security_group_ids = [aws_security_group.docker_demo.id]\n}\n";
        let refs = extract_sg_refs_from_instance_hcl(hcl);
        assert!(
            refs.contains(&"docker_demo".to_string()),
            "should extract SG name: {refs:?}"
        );
    }

    #[test]
    fn todo_interpolation_stripped_from_heredoc() {
        let input = "proxy_pass http://${<TODO: remove AWS resource ref>[0].private_ip}:3000;";
        let out = remove_todo_interpolations(input.to_string());
        assert_eq!(
            out,
            "proxy_pass http://<TODO: remove AWS resource ref>:3000;"
        );
    }

    #[test]
    fn todo_interpolation_with_space_after_brace() {
        let input = "url: '${ <TODO: remove AWS resource ref>}';";
        let out = remove_todo_interpolations(input.to_string());
        assert_eq!(out, "url: '<TODO: remove AWS resource ref>';");
    }

    #[test]
    fn valid_interpolations_are_not_touched() {
        let input = "hostname = \"web-${count.index + 1}\"";
        let out = remove_todo_interpolations(input.to_string());
        assert_eq!(out, input);
    }

    #[test]
    fn multiple_todo_interpolations_all_replaced() {
        let input = "a=${<TODO: remove AWS resource ref>.x} b=${<TODO: remove AWS resource ref>.y}";
        let out = remove_todo_interpolations(input.to_string());
        assert_eq!(
            out,
            "a=<TODO: remove AWS resource ref> b=<TODO: remove AWS resource ref>"
        );
    }
