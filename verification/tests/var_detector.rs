use upcloud_migrate::migration::providers::aws::var_detector::AwsVarDetector;
use upcloud_migrate::migration::var_detector::{
    analyze_variable_with, apply_conversion_to_hcl, build_var_usage_map, extract_variable_info,
    VarConversion, VarKind,
};

#[test]
fn extracts_default_and_description() {
    let hcl = "variable \"region\" {\n  description = \"AWS region\"\n  type = string\n  default = \"us-east-1\"\n}";
    let (d, desc) = extract_variable_info(hcl);
    assert_eq!(d.as_deref(), Some("us-east-1"));
    assert_eq!(desc.as_deref(), Some("AWS region"));
}

#[test]
fn returns_none_for_no_default() {
    let hcl = "variable \"tok\" {\n  type = string\n  sensitive = true\n}";
    let (d, _) = extract_variable_info(hcl);
    assert!(d.is_none());
}

#[test]
fn skips_default_inside_validation_block() {
    let hcl = "variable \"x\" {\n  default = \"us-east-1\"\n  validation {\n    condition = contains([\"us-east-1\"], var.x)\n    error_message = \"must be us-east-1\"\n  }\n}\n";
    let (d, _) = extract_variable_info(hcl);
    assert_eq!(
        d.as_deref(),
        Some("us-east-1"),
        "real default must be found"
    );
}

#[test]
fn detects_instance_type_usage() {
    let hcl = "resource \"aws_instance\" \"web\" {\n  instance_type = var.instance_type\n}";
    let map = build_var_usage_map(&[hcl]);
    assert!(map.get("instance_type").unwrap().contains(&"instance_type".to_string()));
}

#[test]
fn detects_region_usage() {
    let hcl = "provider \"aws\" {\n  region = var.aws_region\n}";
    let map = build_var_usage_map(&[hcl]);
    assert!(map.get("aws_region").unwrap().contains(&"region".to_string()));
}

#[test]
fn high_confidence_instance_type_from_default_and_usage() {
    let conv = analyze_variable_with(
        &AwsVarDetector,
        "instance_type",
        Some("t3.micro"),
        Some("EC2 instance type"),
        &[String::from("instance_type")],
    )
    .unwrap();
    assert_eq!(conv.kind, VarKind::InstanceType);
    assert!(conv.confidence >= 8, "should be HIGH: {}", conv.confidence);
    assert_eq!(conv.converted_value.as_deref(), Some("1xCPU-1GB"));
}

#[test]
fn high_confidence_region_from_default_and_usage() {
    let conv = analyze_variable_with(
        &AwsVarDetector,
        "aws_region",
        Some("us-east-1"),
        Some("AWS region to deploy resources"),
        &[String::from("region")],
    )
    .unwrap();
    assert_eq!(conv.kind, VarKind::Region);
    assert!(conv.confidence >= 8, "should be HIGH: {}", conv.confidence);
    assert_eq!(conv.converted_value.as_deref(), Some("us-nyc1"));
}

#[test]
fn medium_confidence_region_from_name_and_default_only() {
    let conv = analyze_variable_with(&AwsVarDetector, "deploy_region", Some("eu-west-1"), None, &[]).unwrap();
    assert_eq!(conv.kind, VarKind::Region);
    // default match (+5) + name (+1) = 6 → MEDIUM
    assert!(
        conv.confidence >= 5,
        "should be at least MEDIUM: {}",
        conv.confidence
    );
    assert_eq!(conv.converted_value.as_deref(), Some("de-fra1"));
}

#[test]
fn low_confidence_instance_type_from_name_only() {
    let conv = analyze_variable_with(&AwsVarDetector, "instance_type", None, None, &[]);
    // Only name signal (+1) — below threshold of 3, should be None
    assert!(
        conv.is_none(),
        "name-only should not reach confidence threshold"
    );
}

#[test]
fn no_signals_returns_none() {
    let result = analyze_variable_with(&AwsVarDetector, "my_bucket", Some("my-bucket-name"), None, &[]);
    assert!(result.is_none());
}

#[test]
fn picks_higher_confidence_kind() {
    // "region" name + region default + region usage: clearly region, not instance type
    let conv = analyze_variable_with(
        &AwsVarDetector,
        "region",
        Some("ap-southeast-1"),
        None,
        &[String::from("region")],
    )
    .unwrap();
    assert_eq!(conv.kind, VarKind::Region);
}

// ── apply_conversion_to_hcl ───────────────────────────────────────────────

#[test]
fn rewrites_default_line_only() {
    let hcl = "variable \"r\" {\n  default = \"us-east-1\"\n}";
    let conv = VarConversion {
        kind: VarKind::Region,
        confidence: 9,
        converted_value: Some("us-nyc1".to_string()),
        original_default: Some("us-east-1".to_string()),
        signals: vec![],
    };
    let out = apply_conversion_to_hcl(hcl, &conv);
    assert!(out.contains("default = \"us-nyc1\""), "{out}");
    assert!(
        !out.contains("us-east-1"),
        "original value should be replaced\n{out}"
    );
}

#[test]
fn leaves_description_containing_original_value_unchanged() {
    let hcl = "variable \"r\" {\n  description = \"default is us-east-1\"\n  default = \"us-east-1\"\n}";
    let conv = VarConversion {
        kind: VarKind::Region,
        confidence: 9,
        converted_value: Some("us-nyc1".to_string()),
        original_default: Some("us-east-1".to_string()),
        signals: vec![],
    };
    let out = apply_conversion_to_hcl(hcl, &conv);
    // Description must be untouched; only the default line is rewritten.
    assert!(
        out.contains("description = \"default is us-east-1\""),
        "description unchanged\n{out}"
    );
    assert!(
        out.contains("default = \"us-nyc1\""),
        "default rewritten\n{out}"
    );
}

// ── RDS instance class / ElastiCache node type detection ─────────────────

#[test]
fn rds_instance_class_detected_and_converted() {
    let conv = analyze_variable_with(
        &AwsVarDetector,
        "db_instance_class",
        Some("db.t3.medium"),
        Some("RDS instance class for PostgreSQL"),
        &[String::from("instance_class")],
    )
    .unwrap();
    assert_eq!(conv.kind, VarKind::InstanceType);
    assert!(
        conv.confidence >= 8,
        "confidence too low: {}",
        conv.confidence
    );
    assert_eq!(conv.converted_value.as_deref(), Some("1x2xCPU-4GB-50GB"));
}

#[test]
fn cache_node_type_detected_and_converted() {
    let conv = analyze_variable_with(
        &AwsVarDetector,
        "cache_node_type",
        Some("cache.t3.micro"),
        Some("ElastiCache node type"),
        &[String::from("node_type")],
    )
    .unwrap();
    assert_eq!(conv.kind, VarKind::InstanceType);
    assert!(
        conv.confidence >= 8,
        "confidence too low: {}",
        conv.confidence
    );
    assert_eq!(conv.converted_value.as_deref(), Some("1x1xCPU-2GB"));
}

#[test]
fn rds_xlarge_maps_to_correct_plan() {
    let conv = analyze_variable_with(
        &AwsVarDetector,
        "db_class",
        Some("db.m5.xlarge"),
        None,
        &[String::from("instance_class")],
    )
    .unwrap();
    assert_eq!(conv.converted_value.as_deref(), Some("2x6xCPU-16GB-100GB"));
}

#[test]
fn rds_2xlarge_maps_to_correct_plan() {
    let conv = analyze_variable_with(
        &AwsVarDetector,
        "db_class",
        Some("db.r5.2xlarge"),
        None,
        &[String::from("instance_class")],
    )
    .unwrap();
    assert_eq!(conv.converted_value.as_deref(), Some("2x8xCPU-32GB-100GB"));
}

#[test]
fn cache_xlarge_maps_to_correct_plan() {
    let conv = analyze_variable_with(
        &AwsVarDetector,
        "redis_node_type",
        Some("cache.r6g.xlarge"),
        None,
        &[String::from("node_type")],
    )
    .unwrap();
    assert_eq!(conv.converted_value.as_deref(), Some("1x4xCPU-28GB"));
}

#[test]
fn rds_class_name_only_below_threshold() {
    // Variable named "db_class" with no default and no usage signals
    // should not reach the threshold
    let result = analyze_variable_with(&AwsVarDetector, "db_class", None, None, &[]);
    assert!(
        result.is_none(),
        "name-only RDS variable should not convert: {:?}",
        result
    );
}
