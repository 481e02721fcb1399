use gooseboy::error::PipelineError;
use gooseboy::json::{parse_document, Json};
use gooseboy::metadata::{
    get_target_directory, metadata_from_document, package_from_document, parse_metadata, PackageRecord,
    WorkspaceMetadata,
};

fn text(s: &str) -> Json {
    Json::Text(s.to_string())
}

fn object(members: Vec<(&str, Json)>) -> Json {
    Json::Object(members.into_iter().map(|(k, v)| (k.to_string(), v)).collect())
}

#[test]
fn parse_metadata_reads_target_and_packages() {
    let doc = r#"{"packages":[{"name":"a","manifest_path":"/ws/a/Cargo.toml","version":"0.1.0"},
        {"name":"b","manifest_path":"/ws/b/Cargo.toml"}],"target_directory":"/ws/target","version":1}"#;
    let metadata = parse_metadata(doc).unwrap();
    assert_eq!(
        metadata,
        WorkspaceMetadata {
            target_directory: "/ws/target".to_string(),
            packages: vec![
                PackageRecord { name: "a".to_string(), manifest_path: "/ws/a/Cargo.toml".to_string() },
                PackageRecord { name: "b".to_string(), manifest_path: "/ws/b/Cargo.toml".to_string() },
            ],
        }
    );
    assert_eq!(get_target_directory(&metadata), "/ws/target");
}

#[test]
fn parse_metadata_accepts_no_packages() {
    let metadata = parse_metadata(r#"{"target_directory":"/t","packages":[]}"#).unwrap();
    assert_eq!(metadata.target_directory, "/t");
    assert!(metadata.packages.is_empty());
}

#[test]
fn parse_metadata_rejects_text_that_is_no_json() {
    assert_eq!(parse_metadata("not json"), Err(PipelineError::MalformedMetadata));
    assert_eq!(parse_metadata(""), Err(PipelineError::MalformedMetadata));
    assert_eq!(parse_metadata(r#"{"target_directory":"/t","packages":["#), Err(PipelineError::MalformedMetadata));
}

#[test]
fn parse_metadata_rejects_missing_fields() {
    assert_eq!(parse_metadata(r#"{"packages":[]}"#), Err(PipelineError::MalformedMetadata));
    assert_eq!(parse_metadata(r#"{"target_directory":"/t"}"#), Err(PipelineError::MalformedMetadata));
    assert_eq!(
        parse_metadata(r#"{"target_directory":"/t","packages":[{"name":"a"}]}"#),
        Err(PipelineError::MalformedMetadata)
    );
    assert_eq!(
        parse_metadata(r#"{"target_directory":"/t","packages":[{"manifest_path":"/a/Cargo.toml"}]}"#),
        Err(PipelineError::MalformedMetadata)
    );
}

#[test]
fn parse_metadata_rejects_mistyped_fields() {
    assert_eq!(parse_metadata(r#"{"target_directory":7,"packages":[]}"#), Err(PipelineError::MalformedMetadata));
    assert_eq!(
        parse_metadata(r#"{"target_directory":"/t","packages":{}}"#),
        Err(PipelineError::MalformedMetadata)
    );
    assert_eq!(
        parse_metadata(r#"{"target_directory":"/t","packages":[{"name":null,"manifest_path":"/m"}]}"#),
        Err(PipelineError::MalformedMetadata)
    );
    assert_eq!(parse_metadata(r#"["target_directory"]"#), Err(PipelineError::MalformedMetadata));
}

#[test]
fn parse_document_mirrors_every_kind_of_value() {
    let doc = parse_document(r#"{"a":null,"b":true,"c":12,"d":"x","e":[1,"y"],"f":{"g":false}}"#).unwrap();
    assert_eq!(
        doc,
        object(vec![
            ("a", Json::Null),
            ("b", Json::Bool(true)),
            ("c", Json::Number("12".to_string())),
            ("d", text("x")),
            ("e", Json::Array(vec![Json::Number("1".to_string()), text("y")])),
            ("f", object(vec![("g", Json::Bool(false))])),
        ])
    );
    assert_eq!(parse_document("{"), None);
}

#[test]
fn member_lookup_takes_first_of_that_name() {
    let doc = object(vec![("k", text("first")), ("other", Json::Null), ("k", text("second"))]);
    assert_eq!(doc.member("k"), Some(&text("first")));
    assert_eq!(doc.member("missing"), None);
    assert_eq!(text("k").member("k"), None);
    assert_eq!(doc.text("k"), Some("first".to_string()));
    assert_eq!(doc.text("other"), None);
    assert_eq!(doc.array("k"), None);
}

#[test]
fn package_from_document_needs_both_texts() {
    let good = object(vec![("name", text("a")), ("manifest_path", text("/a/Cargo.toml"))]);
    assert_eq!(
        package_from_document(&good),
        Some(PackageRecord { name: "a".to_string(), manifest_path: "/a/Cargo.toml".to_string() })
    );
    assert_eq!(package_from_document(&object(vec![("name", text("a"))])), None);
    assert_eq!(package_from_document(&Json::Null), None);
}

#[test]
fn metadata_from_document_fails_on_one_bad_package() {
    let doc = object(vec![
        ("target_directory", text("/t")),
        (
            "packages",
            Json::Array(vec![
                object(vec![("name", text("a")), ("manifest_path", text("/a/Cargo.toml"))]),
                object(vec![("name", text("b")), ("manifest_path", Json::Bool(true))]),
            ]),
        ),
    ]);
    assert_eq!(metadata_from_document(&doc), Err(PipelineError::MalformedMetadata));
}
