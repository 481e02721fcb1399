use gooseboy::error::PipelineError;
use gooseboy::install::{copy_crate, determine_path, get_gooseboy_crates_folder, CopyPlan};

fn some(s: &str) -> Option<String> {
    Some(s.to_string())
}

#[test]
fn missing_archive_is_archive_not_found() {
    assert_eq!(copy_crate("/t/debug/foo.gbcrate", "/dst", false), Err(PipelineError::ArchiveNotFound));
}

#[test]
fn archive_is_copied_under_its_own_name() {
    assert_eq!(
        copy_crate("/t/wasm32-unknown-unknown/debug/foo.gbcrate", "/home/me/.gooseboy", true),
        Ok(CopyPlan {
            directory: "/home/me/.gooseboy".to_string(),
            destination_file: "/home/me/.gooseboy/foo.gbcrate".to_string(),
        })
    );
}

#[test]
fn destination_chain_is_created_whole() {
    let plan = copy_crate("foo.gbcrate", "/a/b/c/d", true).unwrap();
    assert_eq!(plan.directory, "/a/b/c/d");
    assert_eq!(plan.destination_file, "/a/b/c/d/foo.gbcrate");
}

#[test]
fn path_that_names_no_file_cannot_be_installed() {
    assert_eq!(copy_crate("/t/debug/", "/dst", true), Err(PipelineError::ArchiveNotFound));
    assert_eq!(copy_crate("", "/dst", true), Err(PipelineError::ArchiveNotFound));
}

#[test]
fn crates_folder_is_below_home() {
    assert_eq!(get_gooseboy_crates_folder(some("/home/me"), None), Ok("/home/me/.gooseboy".to_string()));
    assert_eq!(get_gooseboy_crates_folder(some("/home/me"), some("/other")), Ok("/home/me/.gooseboy".to_string()));
}

#[test]
fn crates_folder_falls_back_to_user_profile() {
    assert_eq!(get_gooseboy_crates_folder(None, some("/users/me")), Ok("/users/me/.gooseboy".to_string()));
}

#[test]
fn crates_folder_needs_a_home() {
    assert_eq!(get_gooseboy_crates_folder(None, None), Err(PipelineError::HomeDirectoryUnavailable));
}

#[test]
fn determine_path_prefers_given_path() {
    assert_eq!(determine_path(some("/given"), "/default".to_string()), "/given");
    assert_eq!(determine_path(None, "/default".to_string()), "/default");
}
