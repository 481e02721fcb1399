use vstd::prelude::*;
use vstd::string::*;
use crate::error::PipelineError;
use crate::metadata::WorkspaceMetadata;
use crate::path::{file_name_spec, is_component, join_path, join_spec, lemma_parent_of_join, parent_spec};
use crate::metadata::MetadataView;
use crate::resolve::{get_project_name, project_name, CanonicalPaths, CanonicalView};

verus! {

/// The build configuration: it decides the toolchain's flags and the name
/// of the output directory.
#[derive(Debug, Clone, Copy, PartialEq, Eq, Structural)]
pub enum BuildProfile {
    Debug,
    Release,
}

impl BuildProfile {
    /// The name of the profile's output directory.
    pub open spec fn dir_name(self) -> Seq<char> {
        match self {
            BuildProfile::Debug => "debug"@,
            BuildProfile::Release => "release"@,
        }
    }

    /// The profile that the release flag selects.
    pub open spec fn of_release(release: bool) -> BuildProfile {
        if release {
            BuildProfile::Release
        } else {
            BuildProfile::Debug
        }
    }

    /// The profile that the release flag selects.
    pub fn from_release(release: bool) -> (profile: BuildProfile)
        ensures
            profile == BuildProfile::of_release(release),
    {
        if release {
            BuildProfile::Release
        } else {
            BuildProfile::Debug
        }
    }

    /// The name of the profile's output directory.
    pub fn name(&self) -> (name: &'static str)
        ensures
            name@ == self.dir_name(),
    {
        match self {
            BuildProfile::Debug => "debug",
            BuildProfile::Release => "release",
        }
    }
}

/// The target that every build is made for.
pub open spec fn target_triple_spec() -> Seq<char> {
    "wasm32-unknown-unknown"@
}

/// The target that every build is made for.
pub fn target_triple() -> (triple: &'static str)
    ensures
        triple@ == target_triple_spec(),
{
    "wasm32-unknown-unknown"
}

/// The directory that a build of `profile` writes to.
pub open spec fn artifact_dir(target_directory: Seq<char>, profile: BuildProfile) -> Seq<char> {
    join_spec(join_spec(target_directory, target_triple_spec()), profile.dir_name())
}

/// The file name of a package's compiled binary.
pub open spec fn artifact_filename(package_name: Seq<char>) -> Seq<char> {
    package_name + ".wasm"@
}

/// The path of a package's compiled binary.
pub open spec fn artifact_path(target_directory: Seq<char>, profile: BuildProfile, package_name: Seq<char>) -> Seq<
    char,
> {
    join_spec(artifact_dir(target_directory, profile), artifact_filename(package_name))
}

/// The expected file name and path of a compiled binary.
#[derive(Debug, Clone, PartialEq, Eq)]
pub struct ArtifactPath {
    pub filename: String,
    pub path: String,
}

/// The mathematical value of an `ArtifactPath`.
pub struct ArtifactView {
    pub filename: Seq<char>,
    pub path: Seq<char>,
}

impl View for ArtifactPath {
    type V = ArtifactView;

    open spec fn view(&self) -> ArtifactView {
        ArtifactView { filename: self.filename@, path: self.path@ }
    }
}

/// The artifact of the package `package_name` under `target_directory`.
pub open spec fn artifact_of(target_directory: Seq<char>, profile: BuildProfile, package_name: Seq<char>) -> ArtifactView {
    ArtifactView {
        filename: artifact_filename(package_name),
        path: artifact_path(target_directory, profile, package_name),
    }
}

/// The directory that a build of `profile` writes to.
pub fn output_directory(target_directory: &str, profile: BuildProfile) -> (dir: String)
    ensures
        dir@ == artifact_dir(target_directory@, profile),
{
    let target = join_path(target_directory, target_triple());
    join_path(target.as_str(), profile.name())
}

/// Computes where the compiled binary of the package `package_name` lies
/// under `target_directory`.
pub fn artifact_for(target_directory: &str, profile: BuildProfile, package_name: &str) -> (artifact: ArtifactPath)
    ensures
        artifact@ == artifact_of(target_directory@, profile, package_name@),
{
    let mut filename = String::from_str(package_name);
    filename.append(".wasm");
    let dir = output_directory(target_directory, profile);
    let path = join_path(dir.as_str(), filename.as_str());
    ArtifactPath { filename, path }
}

/// The artifact of the project in `dir`: that of the package whose manifest
/// lies there, under the workspace's target directory.
pub open spec fn locate_spec(
    dir: Seq<char>,
    profile: BuildProfile,
    metadata: MetadataView,
    canonical: CanonicalView,
) -> Result<ArtifactView, PipelineError> {
    match project_name(dir, metadata, canonical) {
        Some(name) => Ok(artifact_of(metadata.target_directory, profile, name)),
        None => Err(PipelineError::PackageNotFound),
    }
}

/// Computes the expected file name and path of the compiled binary of the
/// project in the directory `path`. Nothing is looked up on disk: whether
/// the file exists shows when it is read.
pub fn locate(path: &str, profile: BuildProfile, metadata: &WorkspaceMetadata, canonical: &CanonicalPaths) -> (result:
    Result<ArtifactPath, PipelineError>)
    ensures
        match locate_spec(path@, profile, metadata@, canonical@) {
            Ok(artifact) => result.is_ok() && result.unwrap()@ == artifact,
            Err(e) => result == Err::<ArtifactPath, PipelineError>(e),
        },
{
    match get_project_name(path, metadata, canonical) {
        Ok(name) => Ok(artifact_for(metadata.target_directory.as_str(), profile, name.as_str())),
        Err(_) => Err(PipelineError::PackageNotFound),
    }
}

/// The file name and path of the compiled binary of the project in the
/// directory `path`, for the profile that the release flag selects.
pub fn get_wasm_path(path: &str, release: bool, metadata: &WorkspaceMetadata, canonical: &CanonicalPaths) -> (result:
    Result<ArtifactPath, PipelineError>)
    ensures
        match locate_spec(path@, BuildProfile::of_release(release), metadata@, canonical@) {
            Ok(artifact) => result.is_ok() && result.unwrap()@ == artifact,
            Err(e) => result == Err::<ArtifactPath, PipelineError>(e),
        },
{
    locate(path, BuildProfile::from_release(release), metadata, canonical)
}

/// A package name of one component gives a file name of one component,
/// with any suffix of one component.
pub proof fn lemma_suffixed_component(package_name: Seq<char>, suffix: Seq<char>)
    requires
        is_component(package_name),
        is_component(suffix),
    ensures
        is_component(package_name + suffix),
{
    let whole = package_name + suffix;
    assert forall|i: int| 0 <= i < whole.len() implies whole[i] != '/' by {
        if i < package_name.len() {
            assert(whole[i] == package_name[i]);
        } else {
            assert(whole[i] == suffix[i - package_name.len()]);
        }
    }
}

/// The output directory is written without a trailing separator.
pub proof fn lemma_artifact_dir_clean(target_directory: Seq<char>, profile: BuildProfile)
    ensures
        crate::path::is_clean_dir(artifact_dir(target_directory, profile)),
{
    reveal_strlit("debug");
    reveal_strlit("release");
    let name = profile.dir_name();
    let head = join_spec(target_directory, target_triple_spec());
    let dir = join_spec(head, name);
    assert(name.len() > 0 && name[0] != '/' && name.last() != '/');
    assert(dir.last() == name.last());
}

/// Whether the two paths are the release and the debug directory below
/// `head`, each followed by its artifact's file name.
pub open spec fn below_head(head: Seq<char>, release: ArtifactView, debug: ArtifactView) -> bool {
    &&& release.path == join_spec(join_spec(head, "release"@), release.filename)
    &&& debug.path == join_spec(join_spec(head, "debug"@), debug.filename)
}

/// Locating a project under the two profiles fails alike or succeeds alike.
/// Where it succeeds the two artifacts have the same file name, and their
/// paths differ only in the directory that is named after the profile:
/// each path is that directory, below a head that both share, then the
/// file name.
pub proof fn lemma_profiles_differ_in_one_segment(dir: Seq<char>, metadata: MetadataView, canonical: CanonicalView)
    ensures
        match locate_spec(dir, BuildProfile::Release, metadata, canonical) {
            Ok(release) => {
                let found = locate_spec(dir, BuildProfile::Debug, metadata, canonical);
                &&& found.is_ok()
                &&& release.filename == found.unwrap().filename
                &&& exists|head: Seq<char>| #[trigger] below_head(head, release, found.unwrap())
            },
            Err(e) => locate_spec(dir, BuildProfile::Debug, metadata, canonical) == Err::<
                ArtifactView,
                PipelineError,
            >(e),
        },
{
    match project_name(dir, metadata, canonical) {
        Some(name) => {
            let head = join_spec(metadata.target_directory, target_triple_spec());
            let release = artifact_of(metadata.target_directory, BuildProfile::Release, name);
            let debug = artifact_of(metadata.target_directory, BuildProfile::Debug, name);
            assert(below_head(head, release, debug));
            assert(locate_spec(dir, BuildProfile::Release, metadata, canonical) == Ok::<
                ArtifactView,
                PipelineError,
            >(release));
            assert(locate_spec(dir, BuildProfile::Debug, metadata, canonical) == Ok::<ArtifactView, PipelineError>(
                debug,
            ));
        },
        None => {
            assert(locate_spec(dir, BuildProfile::Release, metadata, canonical) == Err::<
                ArtifactView,
                PipelineError,
            >(PipelineError::PackageNotFound));
        },
    }
}

/// For a package name of one component, the artifact's path has the
/// artifact's file name as its last component, under either profile, and
/// lies in the profile's output directory.
pub proof fn lemma_artifact_path_parts(target_directory: Seq<char>, profile: BuildProfile, package_name: Seq<char>)
    requires
        is_component(package_name),
    ensures
        file_name_spec(artifact_path(target_directory, profile, package_name)) == Some(
            artifact_filename(package_name),
        ),
        parent_spec(artifact_path(target_directory, profile, package_name)) == Some(
            artifact_dir(target_directory, profile),
        ),
{
    reveal_strlit(".wasm");
    lemma_suffixed_component(package_name, ".wasm"@);
    lemma_artifact_dir_clean(target_directory, profile);
    lemma_parent_of_join(artifact_dir(target_directory, profile), artifact_filename(package_name));
}

} // verus!
