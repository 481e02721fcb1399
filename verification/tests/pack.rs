use gooseboy::error::PipelineError;
use gooseboy::metadata::{PackageRecord, WorkspaceMetadata};
use gooseboy::pack::{
    assemble_archive, fill_archive, pack_archive, pack_crate, ArchiveWriter, PackPlan, ENTRY_LIMIT, NAME_LIMIT,
};
use gooseboy::resolve::CanonicalPaths;

fn foo_workspace() -> WorkspaceMetadata {
    WorkspaceMetadata {
        target_directory: "/home/me/foo/target".to_string(),
        packages: vec![PackageRecord {
            name: "foo".to_string(),
            manifest_path: "/home/me/foo/Cargo.toml".to_string(),
        }],
    }
}

fn unknown() -> CanonicalPaths {
    CanonicalPaths { candidate: None, manifests: vec![] }
}

fn read_back(bytes: Vec<u8>) -> Vec<(String, Vec<u8>)> {
    let mut archive = zip::ZipArchive::new(std::io::Cursor::new(bytes)).unwrap();
    let mut entries = Vec::new();
    for i in 0..archive.len() {
        let mut file = archive.by_index(i).unwrap();
        let mut data = Vec::new();
        std::io::Read::read_to_end(&mut file, &mut data).unwrap();
        entries.push((file.name().to_string(), data));
    }
    entries
}

#[test]
fn pack_plan_of_debug_project() {
    assert_eq!(
        pack_crate("/home/me/foo", false, &foo_workspace(), &unknown()),
        Ok(PackPlan {
            binary_path: "/home/me/foo/target/wasm32-unknown-unknown/debug/foo.wasm".to_string(),
            binary_entry: "foo.wasm".to_string(),
            manifest_path: "/home/me/foo/crate.json".to_string(),
            archive_path: "/home/me/foo/target/wasm32-unknown-unknown/debug/foo.gbcrate".to_string(),
        })
    );
}

#[test]
fn pack_plan_of_release_project() {
    let plan = pack_crate("/home/me/foo", true, &foo_workspace(), &unknown()).unwrap();
    assert_eq!(plan.binary_path, "/home/me/foo/target/wasm32-unknown-unknown/release/foo.wasm");
    assert_eq!(plan.archive_path, "/home/me/foo/target/wasm32-unknown-unknown/release/foo.gbcrate");
}

#[test]
fn pack_plan_of_unknown_project_is_an_error() {
    assert_eq!(pack_crate("/nowhere", false, &foo_workspace(), &unknown()), Err(PipelineError::PackageNotFound));
}

#[test]
fn archive_round_trip_has_two_entries() {
    let binary: Vec<u8> = vec![0, 97, 115, 109, 1, 0, 0, 0, 255, 254];
    let manifest: Vec<u8> = b"{\"name\":\"foo\"}".to_vec();
    let bytes = assemble_archive("foo.wasm", &binary, &manifest).unwrap();
    assert_ne!(bytes, binary);
    assert_eq!(
        read_back(bytes),
        vec![("foo.wasm".to_string(), binary), ("crate.json".to_string(), manifest)]
    );
}

#[test]
fn archive_round_trip_with_empty_files() {
    let bytes = assemble_archive("empty.wasm", &vec![], &vec![]).unwrap();
    assert_eq!(read_back(bytes), vec![("empty.wasm".to_string(), vec![]), ("crate.json".to_string(), vec![])]);
}

#[test]
fn archive_round_trip_with_large_binary() {
    let binary: Vec<u8> = (0..200_000u32).map(|i| (i % 251) as u8).collect();
    let manifest: Vec<u8> = vec![b'x'; 3000];
    let bytes = assemble_archive("big.wasm", &binary, &manifest).unwrap();
    let entries = read_back(bytes);
    assert_eq!(entries.len(), 2);
    assert_eq!(entries[0].1, binary);
    assert_eq!(entries[1].1, manifest);
}

#[test]
fn packing_twice_gives_identical_entries() {
    let binary: Vec<u8> = vec![1, 2, 3, 4, 5];
    let manifest: Vec<u8> = b"{}".to_vec();
    let first = pack_archive("foo.wasm", Some(binary.clone()), Some(manifest.clone())).unwrap();
    let second = pack_archive("foo.wasm", Some(binary), Some(manifest)).unwrap();
    assert_eq!(read_back(first), read_back(second));
}

#[test]
fn pack_without_binary_is_artifact_not_found() {
    assert_eq!(pack_archive("foo.wasm", None, Some(vec![1])), Err(PipelineError::ArtifactNotFound));
    assert_eq!(pack_archive("foo.wasm", None, None), Err(PipelineError::ArtifactNotFound));
}

#[test]
fn pack_without_manifest_is_manifest_not_found() {
    assert_eq!(pack_archive("foo.wasm", Some(vec![1]), None), Err(PipelineError::ManifestNotFound));
}

#[test]
fn binary_entry_named_like_manifest_is_a_write_error() {
    assert_eq!(assemble_archive("crate.json", &vec![1], &vec![2]), Err(PipelineError::ArchiveWrite));
}

#[test]
fn writer_takes_further_entries_after_earlier_ones() {
    let mut writer = ArchiveWriter::empty();
    assert_eq!(fill_archive(&mut writer, "a.wasm", &vec![1, 2], &vec![3]), Ok(()));
    let bytes = writer.into_bytes().unwrap();
    assert_eq!(read_back(bytes), vec![("a.wasm".to_string(), vec![1, 2]), ("crate.json".to_string(), vec![3])]);
}

#[test]
fn empty_writer_gives_archive_without_entries() {
    let bytes = ArchiveWriter::empty().into_bytes().unwrap();
    assert!(read_back(bytes).is_empty());
}

#[test]
fn limits_are_as_documented() {
    assert_eq!(NAME_LIMIT, 16383);
    assert_eq!(ENTRY_LIMIT, 1 << 30);
}

#[test]
fn entry_name_at_the_limit_is_packed() {
    let name = "n".repeat(NAME_LIMIT);
    let bytes = assemble_archive(&name, &vec![1], &vec![2]).unwrap();
    assert_eq!(read_back(bytes), vec![(name, vec![1]), ("crate.json".to_string(), vec![2])]);
}

#[test]
fn entry_name_of_four_byte_characters_at_the_limit_is_packed() {
    let name = "\u{1D11E}".repeat(NAME_LIMIT);
    assert_eq!(name.len(), 65532);
    let bytes = assemble_archive(&name, &vec![7, 7], &vec![]).unwrap();
    assert_eq!(read_back(bytes), vec![(name, vec![7, 7]), ("crate.json".to_string(), vec![])]);
}

#[test]
fn entry_name_beyond_the_limit_is_a_write_error() {
    let name = "n".repeat(NAME_LIMIT + 1);
    assert_eq!(assemble_archive(&name, &vec![1], &vec![2]), Err(PipelineError::ArchiveWrite));
    assert_eq!(pack_archive(&name, Some(vec![1]), Some(vec![2])), Err(PipelineError::ArchiveWrite));
    let huge = "x".repeat(70_000);
    let mut writer = ArchiveWriter::empty();
    assert_eq!(fill_archive(&mut writer, &huge, &vec![1], &vec![2]), Err(PipelineError::ArchiveWrite));
    assert!(read_back(writer.into_bytes().unwrap()).is_empty());
}

#[test]
fn taken_names_are_a_write_error() {
    let mut writer = ArchiveWriter::empty();
    assert_eq!(fill_archive(&mut writer, "a.wasm", &vec![1], &vec![2]), Ok(()));
    assert_eq!(fill_archive(&mut writer, "a.wasm", &vec![1], &vec![2]), Err(PipelineError::ArchiveWrite));
    assert_eq!(fill_archive(&mut writer, "b.wasm", &vec![1], &vec![2]), Err(PipelineError::ArchiveWrite));
}

#[test]
fn packing_succeeds_for_every_other_entry_name() {
    for name in ["", "foo.wasm", "dir/foo.wasm", "crate.jso", "Crate.json", "sp ace.wasm"] {
        let bytes = pack_archive(name, Some(vec![3, 4]), Some(vec![5])).unwrap();
        assert_eq!(read_back(bytes), vec![(name.to_string(), vec![3, 4]), ("crate.json".to_string(), vec![5])]);
    }
}
