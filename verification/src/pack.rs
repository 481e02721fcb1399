use vstd::prelude::*;
use vstd::string::*;
use crate::artifact::{
    artifact_dir, artifact_filename, artifact_of, artifact_path, lemma_artifact_dir_clean, lemma_artifact_path_parts,
    lemma_suffixed_component, artifact_for, output_directory, BuildProfile,
};
use crate::error::PipelineError;
use crate::metadata::WorkspaceMetadata;
use crate::path::{file_name_spec, is_component, join_path, join_spec, lemma_parent_of_join, parent_spec};
use crate::resolve::{get_project_name, project_name, CanonicalPaths};

verus! {

/// A `zip::ZipWriter` that writes to a buffer in memory. What it holds is
/// known only through the names below.
#[verifier::external_body]
pub struct ArchiveWriter {
    inner: zip::ZipWriter<std::io::Cursor<Vec<u8>>>,
}

/// The entries that were given to an archive writer, in the order in which
/// they were started: each with its name and the bytes written to it.
pub uninterp spec fn archive_entries(writer: ArchiveWriter) -> Seq<(Seq<char>, Seq<u8>)>;

/// Whether every operation on the writer has succeeded so far.
pub uninterp spec fn in_order(writer: ArchiveWriter) -> bool;

/// Whether the writer's last entry is open, so that bytes can be written
/// to it.
pub uninterp spec fn entry_open(writer: ArchiveWriter) -> bool;

/// The longest entry name, in characters, that the library hands to the
/// codec. A character takes at most four bytes, and the codec keeps the
/// length of a name in bytes in sixteen bits.
pub const NAME_LIMIT: usize = 16383;

/// The number of bytes up to which the library promises that an entry can
/// be written and closed: one GiB. The codec refuses an entry whose bytes,
/// as they are or compressed, take 4 GiB or more.
pub const ENTRY_LIMIT: usize = 0x4000_0000;

/// Whether one of `entries` is called `name`.
pub open spec fn has_name(entries: Seq<(Seq<char>, Seq<u8>)>, name: Seq<char>) -> bool {
    exists|i: int| 0 <= i < entries.len() && (#[trigger] entries[i]).0 == name
}

/// Whether the writer can take a further entry, or be finished: nothing
/// has failed on it, and the entry that is open, if any, is within the
/// limit.
pub open spec fn can_close(writer: ArchiveWriter) -> bool {
    &&& in_order(writer)
    &&& entry_open(writer) ==> archive_entries(writer).len() > 0 && archive_entries(writer).last().1.len()
        <= ENTRY_LIMIT
}

/// `zip::ZipWriter::new` on an empty buffer in memory: a writer that holds
/// no entry and has none open.
#[verifier::external_body]
fn new_archive() -> (writer: ArchiveWriter)
    ensures
        archive_entries(writer) == Seq::<(Seq<char>, Seq<u8>)>::empty(),
        in_order(writer),
        !entry_open(writer),
{
    ArchiveWriter { inner: zip::ZipWriter::new(std::io::Cursor::new(Vec::new())) }
}

/// `zip::ZipWriter::start_file` with the default options. It panics on a
/// name of more than 65535 bytes, which the bound on the name leaves out.
/// It closes the entry that is open, refuses a name that an entry already
/// has, and else adds a new, empty and open entry behind the others. On a
/// writer in order, whose open entry is within the limit, nothing else
/// makes it fail: the buffer in memory takes every write. Of what a
/// failure leaves nothing is claimed.
#[verifier::external_body]
fn start_entry(writer: &mut ArchiveWriter, name: &str) -> (started: bool)
    requires
        name@.len() <= NAME_LIMIT,
    ensures
        started ==> !has_name(archive_entries(*old(writer)), name@),
        started ==> archive_entries(*final(writer)) == archive_entries(*old(writer)).push(
            (name@, Seq::<u8>::empty()),
        ),
        started ==> entry_open(*final(writer)),
        started && in_order(*old(writer)) ==> in_order(*final(writer)),
        can_close(*old(writer)) && !has_name(archive_entries(*old(writer)), name@) ==> started,
{
    writer.inner.start_file(name, zip::write::SimpleFileOptions::default()).is_ok()
}

/// `write_all` of the `std::io::Write` that `zip::ZipWriter` implements.
/// Where it succeeds and an entry was started, the bytes follow those
/// already written to the last entry, and the other entries stay. It
/// succeeds on a writer in order with an open entry that stays within the
/// limit. Of what a failure leaves nothing is claimed.
#[verifier::external_body]
fn write_entry(writer: &mut ArchiveWriter, bytes: &Vec<u8>) -> (written: bool)
    ensures
        written && archive_entries(*old(writer)).len() > 0 ==> archive_entries(*final(writer))
            == archive_entries(*old(writer)).drop_last().push(
            (archive_entries(*old(writer)).last().0, archive_entries(*old(writer)).last().1 + bytes@),
        ),
        written ==> entry_open(*final(writer)) == entry_open(*old(writer)),
        written && in_order(*old(writer)) ==> in_order(*final(writer)),
        in_order(*old(writer)) && entry_open(*old(writer)) && archive_entries(*old(writer)).len() > 0
            && archive_entries(*old(writer)).last().1.len() + bytes@.len() <= ENTRY_LIMIT ==> written,
{
    std::io::Write::write_all(&mut writer.inner, bytes.as_slice()).is_ok()
}

/// What `zip::ZipWriter::finish` makes of a writer: the bytes of the
/// archive, or nothing where finishing fails. Finishing reads no clock and
/// nothing else from outside the writer; an entry's time stamp was taken
/// when the entry was started.
pub uninterp spec fn finished_bytes(writer: ArchiveWriter) -> Option<Seq<u8>>;

/// Whether `bytes` are what finishing gives for some writer that holds
/// exactly `entries`.
pub open spec fn is_archive_of(bytes: Seq<u8>, entries: Seq<(Seq<char>, Seq<u8>)>) -> bool {
    exists|writer: ArchiveWriter| #[trigger]
        finished_bytes(writer) == Some(bytes) && archive_entries(writer) == entries
}

/// `zip::ZipWriter::finish`, then the buffer that the writer wrote to: the
/// archive's bytes, or nothing where finishing failed. Finishing closes
/// the open entry and writes the directory, so it succeeds on a writer in
/// order whose open entry is within the limit. The contract gives the
/// outcome its name and claims nothing of what the bytes are.
#[verifier::external_body]
fn finish_archive(writer: ArchiveWriter) -> (bytes: Option<Vec<u8>>)
    ensures
        match bytes {
            Some(b) => finished_bytes(writer) == Some(b@),
            None => finished_bytes(writer).is_none(),
        },
        can_close(writer) ==> bytes.is_some(),
{
    writer.inner.finish().ok().map(std::io::Cursor::into_inner)
}

impl ArchiveWriter {
    /// A writer that holds no entry yet.
    pub fn empty() -> (writer: ArchiveWriter)
        ensures
            archive_entries(writer) == Seq::<(Seq<char>, Seq<u8>)>::empty(),
            in_order(writer),
            !entry_open(writer),
    {
        new_archive()
    }

    /// Closes the archive and hands out its bytes: those that finishing
    /// this writer gives, and an archive write error where it gives none.
    /// A writer in order, whose open entry is within the limit, gives
    /// bytes.
    pub fn into_bytes(self) -> (result: Result<Vec<u8>, PipelineError>)
        ensures
            match finished_bytes(self) {
                Some(bytes) => result.is_ok() && result.unwrap()@ == bytes,
                None => result == Err::<Vec<u8>, PipelineError>(PipelineError::ArchiveWrite),
            },
            result.is_ok() ==> is_archive_of(result.unwrap()@, archive_entries(self)),
            can_close(self) ==> result.is_ok(),
    {
        match finish_archive(self) {
            Some(bytes) => Ok(bytes),
            None => Err(PipelineError::ArchiveWrite),
        }
    }
}

/// The name of the manifest entry, and of the manifest file in a project.
pub open spec fn manifest_entry_name() -> Seq<char> {
    "crate.json"@
}

/// The two entries of a crate archive: the binary first, the manifest
/// second, each with its bytes as they were handed in.
pub open spec fn crate_entries(binary_entry: Seq<char>, binary: Seq<u8>, manifest: Seq<u8>) -> Seq<
    (Seq<char>, Seq<u8>),
> {
    seq![(binary_entry, binary), (manifest_entry_name(), manifest)]
}

/// A crate archive holds exactly two entries: the binary under its entry
/// name, then the manifest under `crate.json`, each with the very bytes
/// that were handed in.
pub proof fn lemma_two_entries(binary_entry: Seq<char>, binary: Seq<u8>, manifest: Seq<u8>)
    ensures
        crate_entries(binary_entry, binary, manifest).len() == 2,
        crate_entries(binary_entry, binary, manifest)[0] == (binary_entry, binary),
        crate_entries(binary_entry, binary, manifest)[1] == (manifest_entry_name(), manifest),
{
}

/// Whether a binary can be packed under `binary_entry`: the name is within
/// the limit and is not the manifest's.
pub open spec fn entry_name_fits(binary_entry: Seq<char>) -> bool {
    binary_entry.len() <= NAME_LIMIT && binary_entry != manifest_entry_name()
}

/// Whether the two entries of a crate can be added to `entries`: the
/// binary's name fits, and neither name is taken.
pub open spec fn names_free(entries: Seq<(Seq<char>, Seq<u8>)>, binary_entry: Seq<char>) -> bool {
    &&& entry_name_fits(binary_entry)
    &&& !has_name(entries, binary_entry)
    &&& !has_name(entries, manifest_entry_name())
}

/// An entry added behind the others takes its own name and no other.
pub proof fn lemma_has_name_push(entries: Seq<(Seq<char>, Seq<u8>)>, entry: (Seq<char>, Seq<u8>), name: Seq<char>)
    ensures
        has_name(entries.push(entry), name) == (has_name(entries, name) || entry.0 == name),
{
    let longer = entries.push(entry);
    if has_name(entries, name) {
        let i = choose|i: int| 0 <= i < entries.len() && (#[trigger] entries[i]).0 == name;
        assert(longer[i].0 == name);
    }
    if entry.0 == name {
        assert(longer[entries.len() as int].0 == name);
    }
    if has_name(longer, name) {
        let i = choose|i: int| 0 <= i < longer.len() && (#[trigger] longer[i]).0 == name;
        if i < entries.len() {
            assert(entries[i].0 == name);
        }
    }
}

/// Writes the two entries of a crate archive to `writer`. It succeeds only
/// where the binary's name fits and neither name is taken, and then
/// whenever the writer is in order and both files are within the limit.
pub fn fill_archive(
    writer: &mut ArchiveWriter,
    binary_entry: &str,
    binary: &Vec<u8>,
    manifest: &Vec<u8>,
) -> (result: Result<(), PipelineError>)
    ensures
        match result {
            Ok(()) => {
                &&& archive_entries(*final(writer)) == archive_entries(*old(writer)) + crate_entries(
                    binary_entry@,
                    binary@,
                    manifest@,
                )
                &&& entry_open(*final(writer))
                &&& in_order(*old(writer)) ==> in_order(*final(writer))
            },
            Err(e) => e == PipelineError::ArchiveWrite,
        },
        result.is_ok() ==> names_free(archive_entries(*old(writer)), binary_entry@),
        names_free(archive_entries(*old(writer)), binary_entry@) && can_close(*old(writer)) && binary@.len()
            <= ENTRY_LIMIT && manifest@.len() <= ENTRY_LIMIT ==> result.is_ok(),
{
    proof {
        reveal_strlit("crate.json");
    }
    if binary_entry.unicode_len() > NAME_LIMIT {
        return Err(PipelineError::ArchiveWrite);
    }
    if !start_entry(writer, binary_entry) {
        return Err(PipelineError::ArchiveWrite);
    }
    if !write_entry(writer, binary) {
        return Err(PipelineError::ArchiveWrite);
    }
    proof {
        assert(Seq::<u8>::empty() + binary@ =~= binary@);
        assert(archive_entries(*writer) =~= archive_entries(*old(writer)).push((binary_entry@, binary@)));
        lemma_has_name_push(archive_entries(*old(writer)), (binary_entry@, binary@), manifest_entry_name());
    }
    if !start_entry(writer, "crate.json") {
        return Err(PipelineError::ArchiveWrite);
    }
    if !write_entry(writer, manifest) {
        return Err(PipelineError::ArchiveWrite);
    }
    proof {
        assert(Seq::<u8>::empty() + manifest@ =~= manifest@);
        assert(archive_entries(*writer) =~= archive_entries(*old(writer)) + crate_entries(
            binary_entry@,
            binary@,
            manifest@,
        ));
    }
    Ok(())
}

/// Whether the codec is owed to take a crate: the binary's name fits and
/// both files are within the limit.
pub open spec fn crate_fits(binary_entry: Seq<char>, binary: Seq<u8>, manifest: Seq<u8>) -> bool {
    entry_name_fits(binary_entry) && binary.len() <= ENTRY_LIMIT && manifest.len() <= ENTRY_LIMIT
}

/// Builds a crate archive in memory from the binary and the manifest. The
/// bytes that come back are those of a finished writer that holds exactly
/// the two entries of the crate. A crate that fits is packed; a binary
/// whose name does not fit is not, and any failure is an archive write
/// error.
pub fn assemble_archive(binary_entry: &str, binary: &Vec<u8>, manifest: &Vec<u8>) -> (result: Result<
    Vec<u8>,
    PipelineError,
>)
    ensures
        match result {
            Ok(bytes) => is_archive_of(bytes@, crate_entries(binary_entry@, binary@, manifest@)),
            Err(e) => e == PipelineError::ArchiveWrite,
        },
        result.is_ok() ==> entry_name_fits(binary_entry@),
        crate_fits(binary_entry@, binary@, manifest@) ==> result.is_ok(),
{
    let mut writer = ArchiveWriter::empty();
    match fill_archive(&mut writer, binary_entry, binary, manifest) {
        Ok(()) => {
            assert(archive_entries(writer) =~= crate_entries(binary_entry@, binary@, manifest@));
            writer.into_bytes()
        },
        Err(_) => Err(PipelineError::ArchiveWrite),
    }
}

/// What packing a project reads and writes, for the caller to perform.
#[derive(Debug, Clone, PartialEq, Eq)]
pub struct PackPlan {
    /// The compiled binary to read.
    pub binary_path: String,
    /// The name of the binary's entry in the archive.
    pub binary_entry: String,
    /// The manifest to read.
    pub manifest_path: String,
    /// The archive to write.
    pub archive_path: String,
}

/// The mathematical value of a `PackPlan`.
pub struct PackView {
    pub binary_path: Seq<char>,
    pub binary_entry: Seq<char>,
    pub manifest_path: Seq<char>,
    pub archive_path: Seq<char>,
}

impl View for PackPlan {
    type V = PackView;

    open spec fn view(&self) -> PackView {
        PackView {
            binary_path: self.binary_path@,
            binary_entry: self.binary_entry@,
            manifest_path: self.manifest_path@,
            archive_path: self.archive_path@,
        }
    }
}

/// The file name of a package's archive.
pub open spec fn archive_filename(package_name: Seq<char>) -> Seq<char> {
    package_name + ".gbcrate"@
}

/// The plan for the package `package_name` of the project in `dir`: the
/// binary where the build puts it, the manifest in the project, and the
/// archive beside the binary.
pub open spec fn pack_plan(
    dir: Seq<char>,
    target_directory: Seq<char>,
    profile: BuildProfile,
    package_name: Seq<char>,
) -> PackView {
    PackView {
        binary_path: artifact_path(target_directory, profile, package_name),
        binary_entry: artifact_of(target_directory, profile, package_name).filename,
        manifest_path: join_spec(dir, manifest_entry_name()),
        archive_path: join_spec(artifact_dir(target_directory, profile), archive_filename(package_name)),
    }
}

/// For a package name of one component the archive lies beside the
/// binary, in the profile's output directory, and is called after the
/// package; the binary's entry is called as the binary's file is.
pub proof fn lemma_archive_beside_binary(
    dir: Seq<char>,
    target_directory: Seq<char>,
    profile: BuildProfile,
    package_name: Seq<char>,
)
    requires
        is_component(package_name),
    ensures
        parent_spec(pack_plan(dir, target_directory, profile, package_name).archive_path) == parent_spec(
            pack_plan(dir, target_directory, profile, package_name).binary_path,
        ),
        parent_spec(pack_plan(dir, target_directory, profile, package_name).archive_path) == Some(
            artifact_dir(target_directory, profile),
        ),
        file_name_spec(pack_plan(dir, target_directory, profile, package_name).archive_path) == Some(
            archive_filename(package_name),
        ),
        file_name_spec(pack_plan(dir, target_directory, profile, package_name).binary_path) == Some(
            pack_plan(dir, target_directory, profile, package_name).binary_entry,
        ),
        pack_plan(dir, target_directory, profile, package_name).binary_entry == artifact_filename(package_name),
{
    reveal_strlit(".gbcrate");
    lemma_suffixed_component(package_name, ".gbcrate"@);
    lemma_artifact_dir_clean(target_directory, profile);
    lemma_artifact_path_parts(target_directory, profile, package_name);
    lemma_parent_of_join(artifact_dir(target_directory, profile), archive_filename(package_name));
}

/// Plans the packing of the project in the directory `path`.
pub fn pack_crate(path: &str, release: bool, metadata: &WorkspaceMetadata, canonical: &CanonicalPaths) -> (result:
    Result<PackPlan, PipelineError>)
    ensures
        match project_name(path@, metadata@, canonical@) {
            Some(name) => result.is_ok() && result.unwrap()@ == pack_plan(
                path@,
                metadata@.target_directory,
                BuildProfile::of_release(release),
                name,
            ),
            None => result == Err::<PackPlan, PipelineError>(PipelineError::PackageNotFound),
        },
{
    let name = match get_project_name(path, metadata, canonical) {
        Ok(name) => name,
        Err(_) => { return Err(PipelineError::PackageNotFound); },
    };
    let profile = BuildProfile::from_release(release);
    let artifact = artifact_for(metadata.target_directory.as_str(), profile, name.as_str());
    let dir = output_directory(metadata.target_directory.as_str(), profile);
    let mut archive_name = name;
    archive_name.append(".gbcrate");
    Ok(
        PackPlan {
            binary_path: artifact.path,
            binary_entry: artifact.filename,
            manifest_path: join_path(path, "crate.json"),
            archive_path: join_path(dir.as_str(), archive_name.as_str()),
        },
    )
}

/// Builds the archive from what was read: the binary's bytes and the
/// manifest's, each absent where its file could not be opened. A missing
/// binary is reported before a missing manifest, and nothing is assembled
/// unless both are there. Bytes that come back are those of a finished
/// writer that holds exactly the two entries of the crate; with both files
/// there, a crate that fits is packed.
pub fn pack_archive(binary_entry: &str, binary: Option<Vec<u8>>, manifest: Option<Vec<u8>>) -> (result: Result<
    Vec<u8>,
    PipelineError,
>)
    ensures
        binary.is_none() ==> result == Err::<Vec<u8>, PipelineError>(PipelineError::ArtifactNotFound),
        binary.is_some() && manifest.is_none() ==> result == Err::<Vec<u8>, PipelineError>(
            PipelineError::ManifestNotFound,
        ),
        binary.is_some() && manifest.is_some() && result.is_err() ==> result == Err::<Vec<u8>, PipelineError>(
            PipelineError::ArchiveWrite,
        ),
        result.is_ok() ==> binary.is_some() && manifest.is_some() && entry_name_fits(binary_entry@)
            && is_archive_of(
            result.unwrap()@,
            crate_entries(binary_entry@, binary.unwrap()@, manifest.unwrap()@),
        ),
        binary.is_some() && manifest.is_some() && crate_fits(binary_entry@, binary.unwrap()@, manifest.unwrap()@)
            ==> result.is_ok(),
{
    let binary_bytes = match binary {
        Some(bytes) => bytes,
        None => { return Err(PipelineError::ArtifactNotFound); },
    };
    let manifest_bytes = match manifest {
        Some(bytes) => bytes,
        None => { return Err(PipelineError::ManifestNotFound); },
    };
    assemble_archive(binary_entry, &binary_bytes, &manifest_bytes)
}

} // verus!
