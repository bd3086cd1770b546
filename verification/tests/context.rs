//! Dependencies read from manifests.

use workflow_orchestrator::context::{
    dedupe_by_name, names_manifest, passes_over, rust_dependency, version_of, Dependency,
    Ecosystem, Requirement,
};

fn dep(name: &str, version: &str, ecosystem: Ecosystem) -> Dependency {
    Dependency { name: name.to_string(), version: version.to_string(), ecosystem }
}

fn summary(deps: &[Dependency]) -> Vec<(String, String, Ecosystem)> {
    deps.iter().map(|d| (d.name.clone(), d.version.clone(), d.ecosystem)).collect()
}

#[test]
fn requirement_versions() {
    assert_eq!(version_of(&Requirement::Version("1.2".to_string())), "1.2");
    assert_eq!(version_of(&Requirement::Table { version: Some("0.3".to_string()) }), "0.3");
    assert_eq!(version_of(&Requirement::Table { version: None }), "*");
    assert_eq!(version_of(&Requirement::Other), "*");
}

#[test]
fn rust_dependencies_from_the_registry_only() {
    let found = rust_dependency("serde".to_string(), &Requirement::Version("1".to_string()));
    assert_eq!(summary(&[found.unwrap()]), vec![("serde".to_string(), "1".to_string(), Ecosystem::Rust)]);
    let table = rust_dependency("tokio".to_string(), &Requirement::Table { version: None });
    assert_eq!(table.unwrap().version, "*");
    assert!(rust_dependency("x".to_string(), &Requirement::Version("path".to_string())).is_none());
    assert!(rust_dependency(
        "x".to_string(),
        &Requirement::Table { version: Some("my-workspace-1".to_string()) }
    )
    .is_none());
    assert!(rust_dependency("x".to_string(), &Requirement::Other).is_some());
}

#[test]
fn dedupe_keeps_the_first_of_each_name() {
    let deps = vec![
        dep("serde", "1", Ecosystem::Rust),
        dep("react", "18", Ecosystem::Node),
        dep("serde", "0.9", Ecosystem::Rust),
        dep("tokio", "1", Ecosystem::Rust),
        dep("react", "17", Ecosystem::Node),
        dep("serde", "2", Ecosystem::Python),
    ];
    assert_eq!(
        summary(&dedupe_by_name(deps)),
        vec![
            ("serde".to_string(), "1".to_string(), Ecosystem::Rust),
            ("react".to_string(), "18".to_string(), Ecosystem::Node),
            ("tokio".to_string(), "1".to_string(), Ecosystem::Rust),
        ]
    );
    assert!(dedupe_by_name(Vec::new()).is_empty());
    let same = vec![dep("a", "1", Ecosystem::Rust); 4];
    assert_eq!(dedupe_by_name(same).len(), 1);
    let distinct = vec![dep("a", "1", Ecosystem::Rust), dep("A", "1", Ecosystem::Rust)];
    assert_eq!(dedupe_by_name(distinct).len(), 2);
}

#[test]
fn manifest_search_rules() {
    assert!(passes_over(".git"));
    assert!(passes_over("."));
    assert!(passes_over("node_modules"));
    assert!(passes_over("target"));
    assert!(!passes_over("targets"));
    assert!(!passes_over("src"));
    assert!(!passes_over(""));
    assert!(!passes_over("a.b"));
    assert!(names_manifest("Cargo.toml"));
    assert!(names_manifest("package.json"));
    assert!(!names_manifest("cargo.toml"));
    assert!(!names_manifest("Cargo.lock"));
}
