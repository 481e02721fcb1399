use vstd::prelude::*;
use crate::error::PipelineError;
use crate::metadata::{MetadataView, PackageView, WorkspaceMetadata};
use crate::path::{
    is_clean_dir, join_path, join_spec, lemma_parent_of_join_any, parent_dir, parent_spec, without_trailing_separator,
};

verus! {

/// The view of a string that may be absent.
pub open spec fn text_view(text: Option<String>) -> Option<Seq<char>> {
    match text {
        Some(s) => Some(s@),
        None => None,
    }
}

/// What the filesystem made of the manifest paths of one lookup. A
/// canonical form is absent where the path could not be canonicalized.
#[derive(Debug, Clone, PartialEq, Eq)]
pub struct CanonicalPaths {
    /// The canonical form of the manifest path that is looked for.
    pub candidate: Option<String>,
    /// The canonical form of each package's manifest path, in the order of
    /// the packages. Beyond its end every form counts as absent.
    pub manifests: Vec<Option<String>>,
}

/// The mathematical value of a `CanonicalPaths`.
pub struct CanonicalView {
    pub candidate: Option<Seq<char>>,
    pub manifests: Seq<Option<Seq<char>>>,
}

impl View for CanonicalPaths {
    type V = CanonicalView;

    open spec fn view(&self) -> CanonicalView {
        CanonicalView {
            candidate: text_view(self.candidate),
            manifests: Seq::new(self.manifests@.len(), |i: int| text_view(self.manifests@[i])),
        }
    }
}

/// A project directory and, where one was chosen by name, the package.
#[derive(Debug, Clone, PartialEq, Eq)]
pub struct ResolvedProject {
    pub project_directory: String,
    pub package_name: Option<String>,
}

/// The mathematical value of a `ResolvedProject`.
pub struct ResolvedView {
    pub project_directory: Seq<char>,
    pub package_name: Option<Seq<char>>,
}

impl View for ResolvedProject {
    type V = ResolvedView;

    open spec fn view(&self) -> ResolvedView {
        ResolvedView {
            project_directory: self.project_directory@,
            package_name: text_view(self.package_name),
        }
    }
}

/// The manifest file's name.
pub open spec fn manifest_name() -> Seq<char> {
    "Cargo.toml"@
}

/// The canonical form of the manifest path of package `i`.
pub open spec fn canonical_at(canonical: CanonicalView, i: int) -> Option<Seq<char>> {
    if 0 <= i < canonical.manifests.len() {
        canonical.manifests[i]
    } else {
        None
    }
}

/// Whether a package's manifest is the one looked for: by the canonical
/// forms where both are known, else by the paths as they are written.
pub open spec fn manifest_matches(
    manifest_path: Seq<char>,
    manifest_canonical: Option<Seq<char>>,
    candidate: Seq<char>,
    candidate_canonical: Option<Seq<char>>,
) -> bool {
    match (manifest_canonical, candidate_canonical) {
        (Some(a), Some(b)) => a == b,
        _ => manifest_path == candidate,
    }
}

/// The first package from `from` on whose manifest is `candidate`.
pub open spec fn find_by_manifest(
    packages: Seq<PackageView>,
    canonical: CanonicalView,
    candidate: Seq<char>,
    from: int,
) -> Option<int>
    decreases packages.len() - from,
{
    if from < 0 || from >= packages.len() {
        None
    } else if manifest_matches(
        packages[from].manifest_path,
        canonical_at(canonical, from),
        candidate,
        canonical.candidate,
    ) {
        Some(from)
    } else {
        find_by_manifest(packages, canonical, candidate, from + 1)
    }
}

/// The first package from `from` on that is called `name`.
pub open spec fn find_by_name(packages: Seq<PackageView>, name: Seq<char>, from: int) -> Option<int>
    decreases packages.len() - from,
{
    if from < 0 || from >= packages.len() {
        None
    } else if packages[from].name == name {
        Some(from)
    } else {
        find_by_name(packages, name, from + 1)
    }
}

/// The name of the package whose manifest lies in `dir`.
pub open spec fn project_name(dir: Seq<char>, metadata: MetadataView, canonical: CanonicalView) -> Option<Seq<char>> {
    match find_by_manifest(metadata.packages, canonical, join_spec(dir, manifest_name()), 0) {
        Some(i) => Some(metadata.packages[i].name),
        None => None,
    }
}

/// The manifest that a search root and an optional package name denote. A
/// name must be that of a package. Without a name the package whose
/// manifest lies in the search root is taken, and the root's own manifest
/// path where there is none.
pub open spec fn resolved_manifest(
    root: Seq<char>,
    package_name: Option<Seq<char>>,
    metadata: MetadataView,
    canonical: CanonicalView,
) -> Option<Seq<char>> {
    match package_name {
        Some(name) => match find_by_name(metadata.packages, name, 0) {
            Some(i) => Some(metadata.packages[i].manifest_path),
            None => None,
        },
        None => match find_by_manifest(metadata.packages, canonical, join_spec(root, manifest_name()), 0) {
            Some(i) => Some(metadata.packages[i].manifest_path),
            None => Some(join_spec(root, manifest_name())),
        },
    }
}

/// The project directory: the parent of the resolved manifest. A manifest
/// path without a parent makes the metadata malformed.
pub open spec fn resolved_dir(
    root: Seq<char>,
    package_name: Option<Seq<char>>,
    metadata: MetadataView,
    canonical: CanonicalView,
) -> Result<Seq<char>, PipelineError> {
    match resolved_manifest(root, package_name, metadata, canonical) {
        None => Err(PipelineError::PackageNotFound),
        Some(manifest) => match parent_spec(manifest) {
            Some(dir) => Ok(dir),
            None => Err(PipelineError::MalformedMetadata),
        },
    }
}

/// The search root and package name that a command-line argument denotes.
/// `arg_canonical` is present exactly where the argument is an existing
/// path, and is then its canonical form.
pub open spec fn search_root(
    arg: Option<Seq<char>>,
    arg_canonical: Option<Seq<char>>,
    cwd: Seq<char>,
) -> (Seq<char>, Option<Seq<char>>) {
    match (arg, arg_canonical) {
        (Some(_), Some(abs)) => (abs, None),
        (Some(name), None) => (cwd, Some(name)),
        (None, _) => (cwd, None),
    }
}

/// The whole resolution, from the argument to the project.
pub open spec fn resolve_spec(
    arg: Option<Seq<char>>,
    arg_canonical: Option<Seq<char>>,
    cwd: Seq<char>,
    metadata: MetadataView,
    canonical: CanonicalView,
) -> Result<ResolvedView, PipelineError> {
    let (root, package_name) = search_root(arg, arg_canonical, cwd);
    match resolved_dir(root, package_name, metadata, canonical) {
        Ok(project_directory) => Ok(ResolvedView { project_directory, package_name }),
        Err(e) => Err(e),
    }
}

/// The manifest file's name has one component.
pub proof fn lemma_manifest_name()
    ensures
        crate::path::is_component(manifest_name()),
        manifest_name().len() == 10,
{
    reveal_strlit("Cargo.toml");
}

fn canonical_of(canonical: &CanonicalPaths, i: usize) -> (form: Option<&String>)
    ensures
        match form {
            Some(s) => canonical_at(canonical@, i as int) == Some(s@),
            None => canonical_at(canonical@, i as int).is_none(),
        },
{
    if i < canonical.manifests.len() {
        canonical.manifests[i].as_ref()
    } else {
        None
    }
}

/// Finds the package whose manifest is `candidate`.
pub fn find_package_by_manifest(
    metadata: &WorkspaceMetadata,
    canonical: &CanonicalPaths,
    candidate: &String,
) -> (found: Option<usize>)
    ensures
        match found {
            Some(i) => find_by_manifest(metadata@.packages, canonical@, candidate@, 0) == Some(i as int)
                && i < metadata.packages@.len(),
            None => find_by_manifest(metadata@.packages, canonical@, candidate@, 0).is_none(),
        },
{
    let mut i: usize = 0;
    while i < metadata.packages.len()
        invariant
            i <= metadata.packages@.len(),
            find_by_manifest(metadata@.packages, canonical@, candidate@, 0) == find_by_manifest(
                metadata@.packages,
                canonical@,
                candidate@,
                i as int,
            ),
        decreases metadata.packages@.len() - i,
    {
        let package = &metadata.packages[i];
        assert(metadata@.packages[i as int] == package@);
        let matches = match (canonical_of(canonical, i), canonical.candidate.as_ref()) {
            (Some(a), Some(b)) => *a == *b,
            _ => package.manifest_path == *candidate,
        };
        if matches {
            return Some(i);
        }
        i = i + 1;
    }
    None
}

/// Finds the package called `name`.
pub fn find_package_by_name(metadata: &WorkspaceMetadata, name: &str) -> (found: Option<usize>)
    ensures
        match found {
            Some(i) => find_by_name(metadata@.packages, name@, 0) == Some(i as int)
                && i < metadata.packages@.len(),
            None => find_by_name(metadata@.packages, name@, 0).is_none(),
        },
{
    let wanted = String::from_str(name);
    let mut i: usize = 0;
    while i < metadata.packages.len()
        invariant
            i <= metadata.packages@.len(),
            wanted@ == name@,
            find_by_name(metadata@.packages, name@, 0) == find_by_name(
                metadata@.packages,
                name@,
                i as int,
            ),
        decreases metadata.packages@.len() - i,
    {
        assert(metadata@.packages[i as int] == metadata.packages@[i as int]@);
        if metadata.packages[i].name == wanted {
            return Some(i);
        }
        i = i + 1;
    }
    None
}

/// The name of the package whose manifest lies in the directory `path`.
pub fn get_project_name(path: &str, metadata: &WorkspaceMetadata, canonical: &CanonicalPaths) -> (result:
    Result<String, PipelineError>)
    ensures
        match project_name(path@, metadata@, canonical@) {
            Some(name) => result.is_ok() && result.unwrap()@ == name,
            None => result == Err::<String, PipelineError>(PipelineError::PackageNotFound),
        },
{
    let candidate = join_path(path, "Cargo.toml");
    match find_package_by_manifest(metadata, canonical, &candidate) {
        Some(i) => {
            assert(metadata@.packages[i as int] == metadata.packages@[i as int]@);
            Ok(metadata.packages[i].name.clone())
        },
        None => Err(PipelineError::PackageNotFound),
    }
}

/// The directory of the project that a search root and an optional package
/// name denote.
pub fn resolve_project_dir(
    path: &str,
    package_name: Option<&str>,
    metadata: &WorkspaceMetadata,
    canonical: &CanonicalPaths,
) -> (result: Result<String, PipelineError>)
    ensures
        match resolved_dir(
            path@,
            match package_name {
                Some(n) => Some(n@),
                None => None,
            },
            metadata@,
            canonical@,
        ) {
            Ok(dir) => result.is_ok() && result.unwrap()@ == dir,
            Err(e) => result == Err::<String, PipelineError>(e),
        },
{
    let manifest: String = match package_name {
        Some(name) => match find_package_by_name(metadata, name) {
            Some(i) => {
                assert(metadata@.packages[i as int] == metadata.packages@[i as int]@);
                metadata.packages[i].manifest_path.clone()
            },
            None => { return Err(PipelineError::PackageNotFound); },
        },
        None => {
            let candidate = join_path(path, "Cargo.toml");
            match find_package_by_manifest(metadata, canonical, &candidate) {
                Some(i) => {
                    assert(metadata@.packages[i as int] == metadata.packages@[i as int]@);
                    metadata.packages[i].manifest_path.clone()
                },
                None => candidate,
            }
        },
    };
    match parent_dir(manifest.as_str()) {
        Some(dir) => Ok(dir),
        None => Err(PipelineError::MalformedMetadata),
    }
}

/// Decides what a command-line argument is: an existing path, which becomes
/// the search root, or else a package name to look for from the current
/// directory. `arg_canonical` is the argument's canonical form where it is
/// an existing path, and absent where it is not.
pub fn resolve_path_and_package(arg: Option<String>, arg_canonical: Option<String>, cwd: String) -> (result: (
    String,
    Option<String>,
))
    ensures
        (result.0@, text_view(result.1)) == search_root(text_view(arg), text_view(arg_canonical), cwd@),
{
    match arg {
        Some(a) => match arg_canonical {
            Some(abs) => (abs, None),
            None => (cwd, Some(a)),
        },
        None => (cwd, None),
    }
}

/// Resolves a command-line argument to a project. `metadata` is what the
/// toolchain reports at the search root, and `canonical` holds the
/// canonical forms for the search root's manifest path.
pub fn resolve(
    arg: Option<String>,
    arg_canonical: Option<String>,
    cwd: String,
    metadata: &WorkspaceMetadata,
    canonical: &CanonicalPaths,
) -> (result: Result<ResolvedProject, PipelineError>)
    ensures
        match resolve_spec(text_view(arg), text_view(arg_canonical), cwd@, metadata@, canonical@) {
            Ok(project) => result.is_ok() && result.unwrap()@ == project,
            Err(e) => result == Err::<ResolvedProject, PipelineError>(e),
        },
{
    let (root, package_name) = resolve_path_and_package(arg, arg_canonical, cwd);
    let dir = match &package_name {
        Some(name) => resolve_project_dir(root.as_str(), Some(name.as_str()), metadata, canonical),
        None => resolve_project_dir(root.as_str(), None, metadata, canonical),
    };
    match dir {
        Ok(project_directory) => Ok(ResolvedProject { project_directory, package_name }),
        Err(e) => Err(e),
    }
}

/// In a workspace of one package whose manifest lies in the directory
/// `dir`, resolving no argument from `dir` gives `dir` and no package name.
/// A `dir` that was written with a trailing separator comes back without
/// it; a cleanly written one comes back as it is.
pub proof fn lemma_resolve_single_package(
    dir: Seq<char>,
    arg_canonical: Option<Seq<char>>,
    metadata: MetadataView,
    canonical: CanonicalView,
)
    requires
        metadata.packages.len() == 1,
        metadata.packages[0].manifest_path == join_spec(dir, manifest_name()),
    ensures
        resolve_spec(None, arg_canonical, dir, metadata, canonical) == Ok::<ResolvedView, PipelineError>(
            ResolvedView { project_directory: without_trailing_separator(dir), package_name: None },
        ),
        is_clean_dir(dir) ==> resolve_spec(None, arg_canonical, dir, metadata, canonical) == Ok::<
            ResolvedView,
            PipelineError,
        >(ResolvedView { project_directory: dir, package_name: None }),
{
    lemma_manifest_name();
    lemma_parent_of_join_any(dir, manifest_name());
    let candidate = join_spec(dir, manifest_name());
    assert(find_by_manifest(metadata.packages, canonical, candidate, 1).is_none());
}

/// Where `i` is a package called `name` and no package before it is, the
/// lookup by name finds `i`.
pub proof fn lemma_find_by_name(packages: Seq<PackageView>, name: Seq<char>, i: int, from: int)
    requires
        0 <= from <= i < packages.len(),
        packages[i].name == name,
        forall|j: int| from <= j < i ==> packages[j].name != name,
    ensures
        find_by_name(packages, name, from) == Some(i),
    decreases i - from,
{
    if from < i {
        lemma_find_by_name(packages, name, i, from + 1);
    }
}

/// Where some package from `from` on is called `name`, the lookup by name
/// finds the first such package.
pub proof fn lemma_find_by_name_present(packages: Seq<PackageView>, name: Seq<char>, i: int, from: int)
    requires
        0 <= from <= i < packages.len(),
        packages[i].name == name,
    ensures
        find_by_name(packages, name, from).is_some(),
        from <= find_by_name(packages, name, from).unwrap() <= i,
        packages[find_by_name(packages, name, from).unwrap()].name == name,
    decreases i - from,
{
    if packages[from].name != name {
        lemma_find_by_name_present(packages, name, i, from + 1);
    }
}

/// An argument that is no existing path and is the name of a package
/// resolves to that name and to the directory of the manifest of the first
/// package so called, whatever the current directory is; a manifest path
/// without a parent makes the metadata malformed. Where no other package
/// has the name, the package is `i` itself.
pub proof fn lemma_resolve_by_name(
    name: Seq<char>,
    cwd: Seq<char>,
    metadata: MetadataView,
    canonical: CanonicalView,
    i: int,
)
    requires
        0 <= i < metadata.packages.len(),
        metadata.packages[i].name == name,
    ensures
        find_by_name(metadata.packages, name, 0).is_some(),
        metadata.packages[find_by_name(metadata.packages, name, 0).unwrap()].name == name,
        (forall|j: int| 0 <= j < i ==> metadata.packages[j].name != name) ==> find_by_name(
            metadata.packages,
            name,
            0,
        ) == Some(i),
        resolve_spec(Some(name), None, cwd, metadata, canonical) == (match parent_spec(
            metadata.packages[find_by_name(metadata.packages, name, 0).unwrap()].manifest_path,
        ) {
            Some(dir) => Ok::<ResolvedView, PipelineError>(
                ResolvedView { project_directory: dir, package_name: Some(name) },
            ),
            None => Err::<ResolvedView, PipelineError>(PipelineError::MalformedMetadata),
        }),
{
    lemma_find_by_name_present(metadata.packages, name, i, 0);
    if forall|j: int| 0 <= j < i ==> metadata.packages[j].name != name {
        lemma_find_by_name(metadata.packages, name, i, 0);
    }
}

/// An argument that is an existing path is never looked up as a package
/// name: it resolves as no argument does from that path, with no package
/// name, whatever the packages are called.
pub proof fn lemma_existing_path_is_no_name(
    arg: Seq<char>,
    abs: Seq<char>,
    cwd: Seq<char>,
    metadata: MetadataView,
    canonical: CanonicalView,
)
    ensures
        resolve_spec(Some(arg), Some(abs), cwd, metadata, canonical) == resolve_spec(
            None,
            None,
            abs,
            metadata,
            canonical,
        ),
        search_root(Some(arg), Some(abs), cwd).1.is_none(),
        resolve_spec(Some(arg), Some(abs), cwd, metadata, canonical).is_ok() ==> resolve_spec(
            Some(arg),
            Some(abs),
            cwd,
            metadata,
            canonical,
        ).unwrap().package_name.is_none(),
{
}

} // verus!
