use vstd::prelude::*;
use crate::error::PipelineError;
use crate::json::{array_member, parse_document, parsed_json, text_member, Json};

verus! {

/// One package of a workspace.
#[derive(Debug, Clone, PartialEq, Eq)]
pub struct PackageRecord {
    /// The package's name, unique within its workspace.
    pub name: String,
    /// The absolute path of the package's manifest file.
    pub manifest_path: String,
}

/// The mathematical value of a `PackageRecord`.
pub struct PackageView {
    pub name: Seq<char>,
    pub manifest_path: Seq<char>,
}

impl View for PackageRecord {
    type V = PackageView;

    open spec fn view(&self) -> PackageView {
        PackageView { name: self.name@, manifest_path: self.manifest_path@ }
    }
}

/// What the toolchain reports of a workspace.
#[derive(Debug, Clone, PartialEq, Eq)]
pub struct WorkspaceMetadata {
    /// The absolute path of the directory that build output goes to.
    pub target_directory: String,
    /// The packages, in the order in which the toolchain lists them.
    pub packages: Vec<PackageRecord>,
}

/// The mathematical value of a `WorkspaceMetadata`.
pub struct MetadataView {
    pub target_directory: Seq<char>,
    pub packages: Seq<PackageView>,
}

impl View for WorkspaceMetadata {
    type V = MetadataView;

    open spec fn view(&self) -> MetadataView {
        MetadataView {
            target_directory: self.target_directory@,
            packages: Seq::new(self.packages@.len(), |i: int| self.packages@[i]@),
        }
    }
}

/// The package that a document describes: an object with the texts `name`
/// and `manifest_path`.
pub open spec fn package_of(item: Json) -> Option<PackageView> {
    match (text_member(item, "name"@), text_member(item, "manifest_path"@)) {
        (Some(name), Some(manifest_path)) => Some(PackageView { name, manifest_path }),
        _ => None,
    }
}

/// The packages that a list of documents describes, if each describes one.
pub open spec fn packages_of(items: Seq<Json>) -> Option<Seq<PackageView>> {
    if forall|i: int| 0 <= i < items.len() ==> (#[trigger] package_of(items[i])).is_some() {
        Some(Seq::new(items.len(), |i: int| package_of(items[i]).unwrap()))
    } else {
        None
    }
}

/// The metadata that a document holds: an object with the text
/// `target_directory` and the array `packages`, each item of which
/// describes a package.
pub open spec fn document_metadata(doc: Json) -> Option<MetadataView> {
    match (text_member(doc, "target_directory"@), array_member(doc, "packages"@)) {
        (Some(target_directory), Some(items)) => match packages_of(items) {
            Some(packages) => Some(MetadataView { target_directory, packages }),
            None => None,
        },
        _ => None,
    }
}

/// Reads one package record out of a document.
pub fn package_from_document(item: &Json) -> (record: Option<PackageRecord>)
    ensures
        match record {
            Some(r) => package_of(*item) == Some(r@),
            None => package_of(*item).is_none(),
        },
{
    let name = match item.text("name") {
        Some(name) => name,
        None => { return None; },
    };
    match item.text("manifest_path") {
        Some(manifest_path) => Some(PackageRecord { name, manifest_path }),
        None => None,
    }
}

/// Reads the typed metadata out of a parsed document. A missing or
/// mistyped field makes the document malformed.
pub fn metadata_from_document(doc: &Json) -> (result: Result<WorkspaceMetadata, PipelineError>)
    ensures
        match result {
            Ok(metadata) => document_metadata(*doc) == Some(metadata@),
            Err(e) => document_metadata(*doc).is_none() && e == PipelineError::MalformedMetadata,
        },
{
    let target_directory = match doc.text("target_directory") {
        Some(t) => t,
        None => { return Err(PipelineError::MalformedMetadata); },
    };
    let items = match doc.array("packages") {
        Some(items) => items,
        None => { return Err(PipelineError::MalformedMetadata); },
    };
    let mut packages: Vec<PackageRecord> = Vec::new();
    let mut i: usize = 0;
    while i < items.len()
        invariant
            i <= items@.len(),
            packages@.len() == i,
            text_member(*doc, "target_directory"@) == Some(target_directory@),
            array_member(*doc, "packages"@) == Some(items@),
            forall|j: int| 0 <= j < i ==> #[trigger] package_of(items@[j]) == Some(packages@[j]@),
        decreases items@.len() - i,
    {
        match package_from_document(&items[i]) {
            Some(record) => { packages.push(record); },
            None => {
                assert(package_of(items@[i as int]).is_none());
                return Err(PipelineError::MalformedMetadata);
            },
        }
        i = i + 1;
    }
    let metadata = WorkspaceMetadata { target_directory, packages };
    proof {
        assert(packages_of(items@).is_some());
        assert(packages_of(items@).unwrap() =~= metadata@.packages);
    }
    Ok(metadata)
}

/// The metadata that a text holds, where it is a JSON document of the
/// expected shape.
pub open spec fn text_metadata(text: Seq<char>) -> Option<MetadataView> {
    match parsed_json(text) {
        Some(doc) => document_metadata(doc),
        None => None,
    }
}

/// Parses the toolchain's answer to a metadata query.
pub fn parse_metadata(text: &str) -> (result: Result<WorkspaceMetadata, PipelineError>)
    ensures
        match result {
            Ok(metadata) => text_metadata(text@) == Some(metadata@),
            Err(e) => text_metadata(text@).is_none() && e == PipelineError::MalformedMetadata,
        },
{
    match parse_document(text) {
        Some(doc) => metadata_from_document(&doc),
        None => Err(PipelineError::MalformedMetadata),
    }
}

/// The directory that build output goes to.
pub fn get_target_directory(metadata: &WorkspaceMetadata) -> (dir: String)
    ensures
        dir@ == metadata@.target_directory,
{
    metadata.target_directory.clone()
}

} // verus!
