use vstd::prelude::*;
use crate::error::PipelineError;
use crate::path::{
    dir_len, file_name, file_name_spec, is_clean_dir, is_component, join_path, join_spec, lemma_dir_len_bounds,
    lemma_parent_of_join, parent_spec,
};
use crate::resolve::text_view;

verus! {

/// What installing an archive does on disk, for the caller to perform.
#[derive(Debug, Clone, PartialEq, Eq)]
pub struct CopyPlan {
    /// The directory to create, with its missing ancestors.
    pub directory: String,
    /// The file that the archive's bytes are copied to.
    pub destination_file: String,
}

/// The mathematical value of a `CopyPlan`.
pub struct CopyView {
    pub directory: Seq<char>,
    pub destination_file: Seq<char>,
}

impl View for CopyPlan {
    type V = CopyView;

    open spec fn view(&self) -> CopyView {
        CopyView { directory: self.directory@, destination_file: self.destination_file@ }
    }
}

/// The copy that installs the archive at `crate_path` into `destination`:
/// under its own file name. An archive that does not exist, or a path that
/// names no file, cannot be installed.
pub open spec fn copy_plan(crate_path: Seq<char>, destination: Seq<char>, archive_exists: bool) -> Result<
    CopyView,
    PipelineError,
> {
    match file_name_spec(crate_path) {
        Some(name) if archive_exists => Ok(
            CopyView { directory: destination, destination_file: join_spec(destination, name) },
        ),
        _ => Err(PipelineError::ArchiveNotFound),
    }
}

/// Plans the installation of the archive at `crate_path` into the
/// directory `destination_path`. `archive_exists` says whether the archive
/// is on disk.
pub fn copy_crate(crate_path: &str, destination_path: &str, archive_exists: bool) -> (result: Result<
    CopyPlan,
    PipelineError,
>)
    ensures
        match copy_plan(crate_path@, destination_path@, archive_exists) {
            Ok(plan) => result.is_ok() && result.unwrap()@ == plan,
            Err(e) => result == Err::<CopyPlan, PipelineError>(e),
        },
{
    if !archive_exists {
        return Err(PipelineError::ArchiveNotFound);
    }
    match file_name(crate_path) {
        Some(name) => Ok(
            CopyPlan {
                directory: String::from_str(destination_path),
                destination_file: join_path(destination_path, name.as_str()),
            },
        ),
        None => Err(PipelineError::ArchiveNotFound),
    }
}

/// An archive that is not on disk is never installed: there is no plan,
/// whatever the paths are.
pub proof fn lemma_missing_archive_has_no_plan(crate_path: Seq<char>, destination: Seq<char>)
    ensures
        copy_plan(crate_path, destination, false) == Err::<CopyView, PipelineError>(
            PipelineError::ArchiveNotFound,
        ),
{
}

/// An existing archive is installed into the cleanly written directory
/// `destination` under its own file name: that directory is the one to
/// create, it is the parent of the copy, and the copy's file name is the
/// archive's.
pub proof fn lemma_copy_keeps_file_name(crate_path: Seq<char>, destination: Seq<char>)
    requires
        file_name_spec(crate_path).is_some(),
        is_clean_dir(destination),
    ensures
        copy_plan(crate_path, destination, true).is_ok(),
        copy_plan(crate_path, destination, true).unwrap().directory == destination,
        parent_spec(copy_plan(crate_path, destination, true).unwrap().destination_file) == Some(destination),
        file_name_spec(copy_plan(crate_path, destination, true).unwrap().destination_file) == file_name_spec(
            crate_path,
        ),
{
    lemma_dir_len_bounds(crate_path);
    let name = file_name_spec(crate_path).unwrap();
    assert forall|i: int| 0 <= i < name.len() implies name[i] != '/' by {
        assert(name[i] == crate_path[dir_len(crate_path) + i]);
    }
    assert(is_component(name));
    lemma_parent_of_join(destination, name);
}

/// The default installation directory: `.gooseboy` in the home directory,
/// which `HOME` names, or `USERPROFILE` where `HOME` is not set.
pub open spec fn crates_folder(home: Option<Seq<char>>, user_profile: Option<Seq<char>>) -> Result<
    Seq<char>,
    PipelineError,
> {
    match (home, user_profile) {
        (Some(h), _) => Ok(join_spec(h, ".gooseboy"@)),
        (None, Some(p)) => Ok(join_spec(p, ".gooseboy"@)),
        (None, None) => Err(PipelineError::HomeDirectoryUnavailable),
    }
}

/// The default installation directory, from the values of `HOME` and
/// `USERPROFILE`.
pub fn get_gooseboy_crates_folder(home: Option<String>, user_profile: Option<String>) -> (result: Result<
    String,
    PipelineError,
>)
    ensures
        match crates_folder(text_view(home), text_view(user_profile)) {
            Ok(folder) => result.is_ok() && result.unwrap()@ == folder,
            Err(e) => result == Err::<String, PipelineError>(e),
        },
{
    match home {
        Some(h) => Ok(join_path(h.as_str(), ".gooseboy")),
        None => match user_profile {
            Some(p) => Ok(join_path(p.as_str(), ".gooseboy")),
            None => Err(PipelineError::HomeDirectoryUnavailable),
        },
    }
}

/// The given path, or the default where none is given.
pub fn determine_path(path: Option<String>, default: String) -> (chosen: String)
    ensures
        chosen@ == match path {
            Some(p) => p@,
            None => default@,
        },
{
    match path {
        Some(p) => p,
        None => default,
    }
}

} // verus!
