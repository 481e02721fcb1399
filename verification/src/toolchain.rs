use vstd::prelude::*;
use crate::artifact::{target_triple, target_triple_spec};
use crate::error::PipelineError;
use crate::metadata::{parse_metadata, text_metadata, WorkspaceMetadata};

verus! {

/// A run of an outside program, for the caller to perform.
#[derive(Debug, Clone, PartialEq, Eq)]
pub struct Invocation {
    /// The directory to run in.
    pub directory: String,
    /// The program's name.
    pub program: String,
    /// The arguments, in order.
    pub arguments: Vec<String>,
}

impl Invocation {
    /// The arguments as plain sequences.
    pub open spec fn arguments_view(&self) -> Seq<Seq<char>> {
        Seq::new(self.arguments@.len(), |i: int| self.arguments@[i]@)
    }
}

/// How a run of an outside program ended.
#[derive(Debug, Clone, Copy, PartialEq, Eq)]
pub enum ProcessOutcome {
    /// The program could not be launched.
    NotLaunched,
    /// The program ran and ended with this exit code; the code is absent
    /// where a signal ended it.
    Exited(Option<i32>),
}

/// The arguments of a build: the subcommand, the release flag where it is
/// asked for, and the fixed target.
pub open spec fn build_arguments(release: bool) -> Seq<Seq<char>> {
    if release {
        seq!["build"@, "--release"@, "--target"@, target_triple_spec()]
    } else {
        seq!["build"@, "--target"@, target_triple_spec()]
    }
}

/// The arguments of a metadata query: format version 1, without
/// dependencies.
pub open spec fn metadata_arguments() -> Seq<Seq<char>> {
    seq!["metadata"@, "--format-version"@, "1"@, "--no-deps"@]
}

/// The toolchain run that builds the project in `path` for the fixed
/// target.
pub fn build_project(path: &str, release: bool) -> (invocation: Invocation)
    ensures
        invocation.directory@ == path@,
        invocation.program@ == "cargo"@,
        invocation.arguments_view() == build_arguments(release),
{
    let mut arguments: Vec<String> = Vec::new();
    arguments.push(String::from_str("build"));
    if release {
        arguments.push(String::from_str("--release"));
    }
    arguments.push(String::from_str("--target"));
    arguments.push(String::from_str(target_triple()));
    let invocation = Invocation {
        directory: String::from_str(path),
        program: String::from_str("cargo"),
        arguments,
    };
    assert(invocation.arguments_view() =~= build_arguments(release));
    invocation
}

/// The toolchain run that asks for the metadata of the workspace at
/// `path`.
pub fn metadata_query(path: &str) -> (invocation: Invocation)
    ensures
        invocation.directory@ == path@,
        invocation.program@ == "cargo"@,
        invocation.arguments_view() == metadata_arguments(),
{
    let mut arguments: Vec<String> = Vec::new();
    arguments.push(String::from_str("metadata"));
    arguments.push(String::from_str("--format-version"));
    arguments.push(String::from_str("1"));
    arguments.push(String::from_str("--no-deps"));
    let invocation = Invocation {
        directory: String::from_str(path),
        program: String::from_str("cargo"),
        arguments,
    };
    assert(invocation.arguments_view() =~= metadata_arguments());
    invocation
}

/// What a build's end means: success is exit code 0 and nothing else.
pub open spec fn build_result(outcome: ProcessOutcome) -> Result<(), PipelineError> {
    match outcome {
        ProcessOutcome::NotLaunched => Err(PipelineError::ProcessSpawn),
        ProcessOutcome::Exited(Some(0)) => Ok(()),
        ProcessOutcome::Exited(code) => Err(PipelineError::BuildFailed { exit_code: code }),
    }
}

/// Judges how a build ended.
pub fn check_build(outcome: ProcessOutcome) -> (result: Result<(), PipelineError>)
    ensures
        result == build_result(outcome),
{
    match outcome {
        ProcessOutcome::NotLaunched => Err(PipelineError::ProcessSpawn),
        ProcessOutcome::Exited(code) => match code {
            Some(c) => if c == 0 {
                Ok(())
            } else {
                Err(PipelineError::BuildFailed { exit_code: code })
            },
            None => Err(PipelineError::BuildFailed { exit_code: code }),
        },
    }
}

/// Whether a run ended with exit code 0.
pub open spec fn succeeded(outcome: ProcessOutcome) -> bool {
    outcome == ProcessOutcome::Exited(Some(0i32))
}

/// Turns the end of a metadata query and what it printed into metadata. A
/// query that did not run or did not succeed is a failed invocation,
/// whatever it printed.
pub fn read_metadata(outcome: ProcessOutcome, output: &str) -> (result: Result<WorkspaceMetadata, PipelineError>)
    ensures
        match result {
            Ok(metadata) => succeeded(outcome) && text_metadata(output@) == Some(metadata@),
            Err(e) => if succeeded(outcome) {
                text_metadata(output@).is_none() && e == PipelineError::MalformedMetadata
            } else {
                e == PipelineError::ToolchainInvocation
            },
        },
{
    match outcome {
        ProcessOutcome::Exited(Some(c)) => if c == 0 {
            parse_metadata(output)
        } else {
            Err(PipelineError::ToolchainInvocation)
        },
        _ => Err(PipelineError::ToolchainInvocation),
    }
}

} // verus!
