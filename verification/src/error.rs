use vstd::prelude::*;

verus! {

/// Every way in which a command of the pipeline can fail. Each is final for
/// the command that meets it.
#[derive(Debug, Clone, Copy, PartialEq, Eq)]
pub enum PipelineError {
    /// The metadata query could not be started or exited with a failure.
    ToolchainInvocation,
    /// The metadata document lacks a field or holds one of the wrong type.
    MalformedMetadata,
    /// No package of the workspace has the name that was asked for.
    PackageNotFound,
    /// The build ran and did not succeed; the exit code is absent where the
    /// process was ended by a signal.
    BuildFailed { exit_code: Option<i32> },
    /// The toolchain executable could not be launched.
    ProcessSpawn,
    /// The compiled binary is not where the build should have put it.
    ArtifactNotFound,
    /// The project directory holds no `crate.json`.
    ManifestNotFound,
    /// Writing an entry of the archive failed.
    ArchiveWrite,
    /// The archive to install does not exist.
    ArchiveNotFound,
    /// Neither `HOME` nor `USERPROFILE` is set.
    HomeDirectoryUnavailable,
}

impl PipelineError {
    /// A short English sentence for the error, without its data.
    pub fn message(&self) -> (text: &'static str)
        ensures
            text@ == match *self {
                PipelineError::ToolchainInvocation => "failed to query the toolchain for metadata"@,
                PipelineError::MalformedMetadata => "the toolchain's metadata is malformed"@,
                PipelineError::PackageNotFound => "package not found"@,
                PipelineError::BuildFailed { .. } => "the build failed"@,
                PipelineError::ProcessSpawn => "failed to run the toolchain"@,
                PipelineError::ArtifactNotFound => "the compiled binary was not found"@,
                PipelineError::ManifestNotFound => "crate.json was not found"@,
                PipelineError::ArchiveWrite => "failed to write the archive"@,
                PipelineError::ArchiveNotFound => "the archive was not found"@,
                PipelineError::HomeDirectoryUnavailable => "no home directory is set"@,
            },
    {
        match *self {
            PipelineError::ToolchainInvocation => "failed to query the toolchain for metadata",
            PipelineError::MalformedMetadata => "the toolchain's metadata is malformed",
            PipelineError::PackageNotFound => "package not found",
            PipelineError::BuildFailed { .. } => "the build failed",
            PipelineError::ProcessSpawn => "failed to run the toolchain",
            PipelineError::ArtifactNotFound => "the compiled binary was not found",
            PipelineError::ManifestNotFound => "crate.json was not found",
            PipelineError::ArchiveWrite => "failed to write the archive",
            PipelineError::ArchiveNotFound => "the archive was not found",
            PipelineError::HomeDirectoryUnavailable => "no home directory is set",
        }
    }
}

} // verus!
