use upcloud_migrate::graph::GraphNode;
use upcloud_migrate::graph::nodes_to_mermaid;
use upcloud_migrate::graph::parse_dot;

const SAMPLE_DOT: &str = r#"
digraph {
  compound = "true"
  newrank = "true"
  subgraph "root" {
    "[root] upcloud_server.web (expand)" [label = "upcloud_server.web", shape = "box"]
    "[root] upcloud_network.main (expand)" [label = "upcloud_network.main", shape = "box"]
    "[root] upcloud_router.main (expand)" [label = "upcloud_router.main", shape = "box"]
    "[root] provider[\"registry.terraform.io/hashicorp/upcloud\"]" [label = "provider[\"registry.terraform.io/hashicorp/upcloud\"]", shape = "diamond"]
    "[root] upcloud_server.web (expand)" -> "[root] upcloud_network.main (expand)"
    "[root] upcloud_server.web (expand)" -> "[root] provider[\"registry.terraform.io/hashicorp/upcloud\"]"
    "[root] upcloud_network.main (expand)" -> "[root] upcloud_router.main (expand)"
  }
}
"#;


    #[test]
    fn parse_dot_extracts_nodes_and_edges() {
        let nodes = parse_dot(SAMPLE_DOT);
        assert_eq!(nodes.len(), 3, "should have 3 resource nodes");

        let server = nodes
            .iter()
            .find(|n| n.name == "upcloud_server.web")
            .unwrap();
        assert_eq!(server.deps, vec!["upcloud_network.main"]);

        let net = nodes
            .iter()
            .find(|n| n.name == "upcloud_network.main")
            .unwrap();
        assert_eq!(net.deps, vec!["upcloud_router.main"]);

        let router = nodes
            .iter()
            .find(|n| n.name == "upcloud_router.main")
            .unwrap();
        assert!(router.deps.is_empty());
    }

    #[test]
    fn nodes_to_mermaid_produces_valid_block() {
        let nodes = vec![
            GraphNode {
                name: "upcloud_server.web".into(),
                deps: vec!["upcloud_network.main".into()],
            },
            GraphNode {
                name: "upcloud_network.main".into(),
                deps: vec![],
            },
        ];
        let mermaid = nodes_to_mermaid(&nodes);
        assert!(mermaid.starts_with("graph TD"));
        assert!(mermaid.contains("upcloud_server.web"));
        assert!(mermaid.contains("upcloud_network.main"));
        assert!(mermaid.contains("-->"));
    }
