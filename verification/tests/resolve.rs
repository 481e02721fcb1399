use gooseboy::error::PipelineError;
use gooseboy::metadata::{PackageRecord, WorkspaceMetadata};
use gooseboy::resolve::{
    find_package_by_manifest, find_package_by_name, get_project_name, resolve, resolve_path_and_package,
    resolve_project_dir, CanonicalPaths, ResolvedProject,
};

fn package(name: &str, manifest_path: &str) -> PackageRecord {
    PackageRecord { name: name.to_string(), manifest_path: manifest_path.to_string() }
}

fn workspace(packages: Vec<PackageRecord>) -> WorkspaceMetadata {
    WorkspaceMetadata { target_directory: "/ws/target".to_string(), packages }
}

fn unknown() -> CanonicalPaths {
    CanonicalPaths { candidate: None, manifests: vec![] }
}

fn some(s: &str) -> Option<String> {
    Some(s.to_string())
}

#[test]
fn single_package_resolves_to_its_directory() {
    let metadata = workspace(vec![package("foo", "/home/me/foo/Cargo.toml")]);
    let resolved = resolve(None, None, "/home/me/foo".to_string(), &metadata, &unknown());
    assert_eq!(
        resolved,
        Ok(ResolvedProject { project_directory: "/home/me/foo".to_string(), package_name: None })
    );
}

#[test]
fn package_name_resolves_to_manifest_parent() {
    let metadata = workspace(vec![package("a", "/ws/a/Cargo.toml"), package("b", "/ws/crates/b/Cargo.toml")]);
    for cwd in ["/ws", "/ws/a", "/elsewhere"] {
        let resolved = resolve(some("b"), None, cwd.to_string(), &metadata, &unknown());
        assert_eq!(
            resolved,
            Ok(ResolvedProject { project_directory: "/ws/crates/b".to_string(), package_name: some("b") })
        );
    }
}

#[test]
fn existing_path_is_not_taken_as_package_name() {
    let metadata = workspace(vec![package("a", "/ws/a/Cargo.toml"), package("b", "/ws/b/Cargo.toml")]);
    let resolved = resolve(some("b"), some("/ws/a"), "/ws".to_string(), &metadata, &unknown());
    assert_eq!(resolved, Ok(ResolvedProject { project_directory: "/ws/a".to_string(), package_name: None }));
}

#[test]
fn unknown_package_name_is_an_error() {
    let metadata = workspace(vec![package("a", "/ws/a/Cargo.toml")]);
    assert_eq!(
        resolve(some("zzz"), None, "/ws".to_string(), &metadata, &unknown()),
        Err(PipelineError::PackageNotFound)
    );
    assert_eq!(
        resolve_project_dir("/ws", Some("zzz"), &metadata, &unknown()),
        Err(PipelineError::PackageNotFound)
    );
}

#[test]
fn package_name_must_match_exactly() {
    let metadata = workspace(vec![package("ab", "/ws/ab/Cargo.toml")]);
    assert_eq!(find_package_by_name(&metadata, "a"), None);
    assert_eq!(find_package_by_name(&metadata, "AB"), None);
    assert_eq!(find_package_by_name(&metadata, "ab"), Some(0));
}

#[test]
fn no_match_falls_back_to_search_root() {
    let metadata = workspace(vec![package("a", "/ws/a/Cargo.toml")]);
    assert_eq!(resolve_project_dir("/ws", None, &metadata, &unknown()), Ok("/ws".to_string()));
    assert_eq!(resolve_project_dir("/ws/", None, &metadata, &unknown()), Ok("/ws".to_string()));
}

#[test]
fn canonical_forms_decide_where_both_are_known() {
    let metadata = workspace(vec![package("a", "/real/a/Cargo.toml"), package("b", "/real/b/Cargo.toml")]);
    let canonical = CanonicalPaths {
        candidate: some("/real/b/Cargo.toml"),
        manifests: vec![some("/real/a/Cargo.toml"), some("/real/b/Cargo.toml")],
    };
    assert_eq!(find_package_by_manifest(&metadata, &canonical, &"/link/Cargo.toml".to_string()), Some(1));
    assert_eq!(resolve_project_dir("/link", None, &metadata, &canonical), Ok("/real/b".to_string()));
    assert_eq!(get_project_name("/link", &metadata, &canonical), Ok("b".to_string()));
}

#[test]
fn raw_paths_decide_where_a_canonical_form_is_missing() {
    let metadata = workspace(vec![package("a", "/ws/a/Cargo.toml"), package("b", "/ws/b/Cargo.toml")]);
    let candidate_only = CanonicalPaths { candidate: some("/other/Cargo.toml"), manifests: vec![None] };
    assert_eq!(get_project_name("/ws/b", &metadata, &candidate_only), Ok("b".to_string()));
    let manifests_only = CanonicalPaths { candidate: None, manifests: vec![some("/x"), some("/y")] };
    assert_eq!(get_project_name("/ws/a", &metadata, &manifests_only), Ok("a".to_string()));
}

#[test]
fn canonical_mismatch_wins_over_equal_raw_paths() {
    let metadata = workspace(vec![package("a", "/ws/a/Cargo.toml")]);
    let canonical = CanonicalPaths { candidate: some("/one/Cargo.toml"), manifests: vec![some("/two/Cargo.toml")] };
    assert_eq!(get_project_name("/ws/a", &metadata, &canonical), Err(PipelineError::PackageNotFound));
}

#[test]
fn first_matching_package_is_taken() {
    let metadata = workspace(vec![package("first", "/ws/Cargo.toml"), package("second", "/ws/Cargo.toml")]);
    assert_eq!(get_project_name("/ws", &metadata, &unknown()), Ok("first".to_string()));
}

#[test]
fn project_name_of_unlisted_directory_is_an_error() {
    let metadata = workspace(vec![package("a", "/ws/a/Cargo.toml")]);
    assert_eq!(get_project_name("/ws", &metadata, &unknown()), Err(PipelineError::PackageNotFound));
    assert_eq!(get_project_name("/ws", &workspace(vec![]), &unknown()), Err(PipelineError::PackageNotFound));
}

#[test]
fn manifest_without_parent_is_malformed() {
    let metadata = workspace(vec![package("a", ""), package("b", "/ws/b/")]);
    assert_eq!(resolve_project_dir("/ws", Some("a"), &metadata, &unknown()), Err(PipelineError::MalformedMetadata));
    assert_eq!(resolve_project_dir("/ws", Some("b"), &metadata, &unknown()), Err(PipelineError::MalformedMetadata));
}

#[test]
fn argument_is_path_or_name_or_absent() {
    assert_eq!(
        resolve_path_and_package(some("proj"), some("/abs/proj"), "/cwd".to_string()),
        ("/abs/proj".to_string(), None)
    );
    assert_eq!(resolve_path_and_package(some("pkg"), None, "/cwd".to_string()), ("/cwd".to_string(), some("pkg")));
    assert_eq!(resolve_path_and_package(None, None, "/cwd".to_string()), ("/cwd".to_string(), None));
    assert_eq!(resolve_path_and_package(None, some("/ignored"), "/cwd".to_string()), ("/cwd".to_string(), None));
}

#[test]
fn workspace_of_two_resolves_second_by_name() {
    let metadata = workspace(vec![package("a", "/ws/a/Cargo.toml"), package("b", "/ws/b/Cargo.toml")]);
    let resolved = resolve(some("b"), None, "/ws".to_string(), &metadata, &unknown()).unwrap();
    assert_eq!(resolved.project_directory, "/ws/b");
    assert_eq!(resolved.package_name, some("b"));
    let canonical = CanonicalPaths { candidate: None, manifests: vec![None, None] };
    assert_eq!(get_project_name(&resolved.project_directory, &metadata, &canonical), Ok("b".to_string()));
}

#[test]
fn trailing_separator_of_root_is_dropped() {
    let metadata = workspace(vec![package("foo", "/home/me/foo/Cargo.toml")]);
    let resolved = resolve(None, None, "/home/me/foo/".to_string(), &metadata, &unknown());
    assert_eq!(
        resolved,
        Ok(ResolvedProject { project_directory: "/home/me/foo".to_string(), package_name: None })
    );
}

#[test]
fn first_package_of_a_repeated_name_is_taken() {
    let metadata = workspace(vec![package("a", "/ws/one/Cargo.toml"), package("a", "/ws/two/Cargo.toml")]);
    assert_eq!(resolve_project_dir("/ws", Some("a"), &metadata, &unknown()), Ok("/ws/one".to_string()));
}
